//! The buffer-pool block device.
//!
//! A `BlockDevice` owns a fixed arena of page slots addressed by integer
//! index. Every slot index is at all times in exactly one of the FIFO free
//! list or the ordered occupied list; a map records, for each logical page
//! number (LPN) whose last write has not yet been flushed, the occupied slot
//! holding its data. `write` claims the oldest free slot, `read` copies a
//! mapped slot out, and `flush` hands every occupied slot's record to the
//! caller for persistence and reclaims the slots in bulk.

use std::collections::HashMap;
use std::collections::VecDeque;
use vstd::prelude::*;

verus! {

broadcast use vstd::std_specs::hash::group_hash_axioms;

/// Number of page slots in the pool, fixed at construction.
pub const DATA_BUFFER_POOL_CAPACITY: usize = 10;

/// Size in bytes of one page slot.
pub const DATA_BUFFER_SIZE_IN_4KB: usize = 20;

/// Errors of the buffer-pool device.
#[derive(Debug, Clone, Copy, PartialEq, Eq, Structural)]
pub enum DeviceError {
    /// `write` found the free list empty: every slot holds unflushed data.
    PoolExhausted,
}

/// One page slot: a fixed-size byte buffer, its index in the pool, and the
/// LPN of the last write into it.
#[derive(Debug, Clone)]
pub struct DataDesc {
    pub id: u32,
    pub lpn: u64,
    pub buffer: Vec<u8>,
}

impl DataDesc {
    pub fn new(index: u32, buffer: Vec<u8>) -> (d: DataDesc)
        ensures
            d.id == index,
            d.lpn == 0u64,
            d.buffer@ == buffer@,
    {
        DataDesc { id: index, lpn: 0, buffer }
    }

    /// Copy `data` over the front of this slot's buffer, leaving the bytes
    /// past `data.len()` at their prior value.
    pub fn copy_buffer(&mut self, data: &Vec<u8>)
        requires
            data@.len() <= old(self).buffer@.len(),
        ensures
            final(self).buffer@ == data@ + old(self).buffer@.skip(data@.len() as int),
            final(self).buffer@.len() == old(self).buffer@.len(),
            final(self).id == old(self).id,
            final(self).lpn == old(self).lpn,
    {
        let mut i: usize = 0;
        while i < data.len()
            invariant
                i <= data@.len(),
                data@.len() <= self.buffer@.len(),
                self.buffer@.len() == old(self).buffer@.len(),
                self.id == old(self).id,
                self.lpn == old(self).lpn,
                forall|k: int| 0 <= k < i ==> self.buffer@[k] == data@[k],
                forall|k: int| i <= k < self.buffer@.len() ==> self.buffer@[k] == old(self).buffer@[k],
            decreases data@.len() - i,
        {
            let b = data[i];
            self.buffer.set(i, b);
            i = i + 1;
        }
        proof {
            assert(self.buffer@ =~= data@ + old(self).buffer@.skip(data@.len() as int));
        }
    }

    pub fn get_index(&mut self) -> (index: u32)
        ensures
            index == old(self).id,
            *final(self) == *old(self),
    {
        self.id
    }
}

/// The state change of a successful `write` of `data` to `lpn`: the head of
/// the free list is claimed, `data` is copied over the front of that slot
/// (bytes past `data.len()` keep their prior value), the slot is tagged with
/// `lpn` and appended to the occupied list, and the map sends `lpn` to it.
/// Every other slot, and the rest of the state, is unchanged.
pub open spec fn write_transition(
    pre: BlockDevice,
    post: BlockDevice,
    lpn: u64,
    data: Seq<u8>,
) -> bool {
    let slot = pre.free_buf_list@[0];
    &&& pre.free_buf_list@.len() > 0
    &&& post.device_name == pre.device_name
    &&& post.free_buf_list@ == pre.free_buf_list@.skip(1)
    &&& post.used_buf_list@ == pre.used_buf_list@.push(slot)
    &&& post.lpn_hash@ == pre.lpn_hash@.insert(lpn, slot)
    &&& post.buffer_pool@.len() == pre.buffer_pool@.len()
    &&& post.buffer_pool@[slot as int].buffer@ == data + pre.buffer_pool@[slot as int].buffer@.skip(
        data.len() as int,
    )
    &&& post.buffer_pool@[slot as int].lpn == lpn
    &&& post.buffer_pool@[slot as int].id == pre.buffer_pool@[slot as int].id
    &&& forall|k: int| 0 <= k < pre.buffer_pool@.len() && k != slot as int
        ==> post.buffer_pool@[k] == pre.buffer_pool@[k]
}

/// The state change of `flush`: every occupied slot index moves to the back
/// of the free list in occupied-list order, the occupied list and the LPN map
/// are cleared in full, and the slots' contents are untouched.
pub open spec fn flush_transition(pre: BlockDevice, post: BlockDevice) -> bool {
    &&& post.device_name == pre.device_name
    &&& post.free_buf_list@ == pre.free_buf_list@ + pre.used_buf_list@
    &&& post.used_buf_list@ == Seq::<u32>::empty()
    &&& post.lpn_hash@ == Map::<u64, u32>::empty()
    &&& post.buffer_pool@ == pre.buffer_pool@
}

/// One record handed out by `flush_records`: an LPN and the full contents of
/// the slot that currently backs it.
pub struct FlushRecord {
    pub lpn: u64,
    pub data: Vec<u8>,
}

impl View for FlushRecord {
    type V = (u64, Seq<u8>);

    open spec fn view(&self) -> (u64, Seq<u8>) {
        (self.lpn, self.data@)
    }
}

/// The buffer-pool device: a fixed arena of page slots, a FIFO free list and
/// an ordered occupied list of slot indices, and the LPN-to-slot map.
pub struct BlockDevice {
    pub device_name: String,
    pub free_buf_list: VecDeque<u32>,
    pub used_buf_list: Vec<u32>,
    pub buffer_pool: Vec<DataDesc>,
    pub lpn_hash: HashMap<u64, u32>,
}

impl BlockDevice {
    /// Well-formedness: the free and occupied lists partition the slot
    /// indices (together they are as many as the slots, in-bounds, without
    /// duplicates and disjoint), every slot buffer has the page size, every
    /// slot records its own index, and every map entry points at an occupied
    /// slot that carries the mapped LPN.
    pub open spec fn wf(self) -> bool {
        &&& self.buffer_pool@.len() <= DATA_BUFFER_POOL_CAPACITY
        &&& self.free_buf_list@.len() + self.used_buf_list@.len() == self.buffer_pool@.len()
        &&& forall|i: int| 0 <= i < self.free_buf_list@.len()
            ==> #[trigger] self.free_buf_list@[i] < self.buffer_pool@.len()
        &&& forall|i: int| 0 <= i < self.used_buf_list@.len()
            ==> #[trigger] self.used_buf_list@[i] < self.buffer_pool@.len()
        &&& forall|i: int, j: int| 0 <= i < j < self.free_buf_list@.len()
            ==> self.free_buf_list@[i] != self.free_buf_list@[j]
        &&& forall|i: int, j: int| 0 <= i < j < self.used_buf_list@.len()
            ==> self.used_buf_list@[i] != self.used_buf_list@[j]
        &&& forall|i: int, j: int|
            0 <= i < self.free_buf_list@.len() && 0 <= j < self.used_buf_list@.len()
            ==> self.free_buf_list@[i] != self.used_buf_list@[j]
        &&& forall|i: int| 0 <= i < self.buffer_pool@.len()
            ==> (#[trigger] self.buffer_pool@[i]).buffer@.len() == DATA_BUFFER_SIZE_IN_4KB
        &&& forall|i: int| 0 <= i < self.buffer_pool@.len()
            ==> (#[trigger] self.buffer_pool@[i]).id == i
        &&& forall|l: u64| #[trigger] self.lpn_hash@.contains_key(l) ==> {
            &&& self.used_buf_list@.contains(self.lpn_hash@[l])
            &&& self.buffer_pool@[self.lpn_hash@[l] as int].lpn == l
        }
    }

    /// The pool has been populated by `init_buffer_pool`.
    pub open spec fn initialized(self) -> bool {
        self.buffer_pool@.len() == DATA_BUFFER_POOL_CAPACITY
    }

    /// Contents of one slot.
    pub open spec fn slot_bytes(self, slot: u32) -> Seq<u8>
        recommends
            slot < self.buffer_pool@.len(),
    {
        self.buffer_pool@[slot as int].buffer@
    }

    /// The slot's mapping is current: the map still sends the LPN recorded in
    /// the slot to this very slot. An occupied slot loses this when its LPN
    /// is written again before a flush.
    pub open spec fn mapping_current(self, slot: u32) -> bool
        recommends
            slot < self.buffer_pool@.len(),
    {
        let l = self.buffer_pool@[slot as int].lpn;
        &&& self.lpn_hash@.contains_key(l)
        &&& self.lpn_hash@[l] == slot
    }

    /// The `(LPN, page bytes)` records for the occupied slots listed in
    /// `used`, in list order, keeping exactly the slots whose mapping is
    /// current.
    pub open spec fn records_for(self, used: Seq<u32>) -> Seq<(u64, Seq<u8>)>
        decreases used.len(),
    {
        if used.len() == 0 {
            Seq::empty()
        } else {
            let prefix = self.records_for(used.drop_last());
            let slot = used.last();
            if self.mapping_current(slot) {
                prefix.push((self.buffer_pool@[slot as int].lpn, self.slot_bytes(slot)))
            } else {
                prefix
            }
        }
    }

    /// Everything a flush must persist: one record per currently mapped LPN,
    /// in occupied-list (write) order.
    pub open spec fn flush_record_seq(self) -> Seq<(u64, Seq<u8>)> {
        self.records_for(self.used_buf_list@)
    }

    /// What a destination buffer holding `dest` holds after `read(lpn)`: on a
    /// hit, the mapped slot's full contents followed by the tail of `dest`;
    /// on a miss, `dest` unchanged.
    pub open spec fn read_output(self, lpn: u64, dest: Seq<u8>) -> Seq<u8> {
        if self.lpn_hash@.contains_key(lpn) {
            self.slot_bytes(self.lpn_hash@[lpn]) + dest.skip(DATA_BUFFER_SIZE_IN_4KB as int)
        } else {
            dest
        }
    }

    pub fn new(input_name: &str) -> (device: BlockDevice)
        ensures
            device.wf(),
            device.device_name@ == input_name@,
            device.buffer_pool@.len() == 0,
            device.free_buf_list@ == Seq::<u32>::empty(),
            device.used_buf_list@ == Seq::<u32>::empty(),
            device.lpn_hash@ == Map::<u64, u32>::empty(),
    {
        BlockDevice {
            device_name: input_name.to_string(),
            free_buf_list: VecDeque::with_capacity(DATA_BUFFER_POOL_CAPACITY),
            used_buf_list: Vec::with_capacity(DATA_BUFFER_POOL_CAPACITY),
            buffer_pool: Vec::with_capacity(DATA_BUFFER_POOL_CAPACITY),
            lpn_hash: HashMap::new(),
        }
    }

    pub fn get_device_name(&self) -> (name: &str)
        ensures
            name@ == self.device_name@,
    {
        self.device_name.as_str()
    }

    /// Populate the pool: `DATA_BUFFER_POOL_CAPACITY` zero-filled slots of
    /// `DATA_BUFFER_SIZE_IN_4KB` bytes each, with the free list holding all
    /// slot indices in ascending order. Must be called exactly once, on a
    /// freshly constructed device.
    pub fn init_buffer_pool(&mut self)
        requires
            old(self).wf(),
            old(self).buffer_pool@.len() == 0,
        ensures
            final(self).wf(),
            final(self).initialized(),
            final(self).device_name == old(self).device_name,
            final(self).free_buf_list@ == Seq::new(
                DATA_BUFFER_POOL_CAPACITY as nat,
                |i: int| i as u32,
            ),
            final(self).used_buf_list@ == old(self).used_buf_list@,
            final(self).lpn_hash@ == old(self).lpn_hash@,
            forall|i: int| 0 <= i < DATA_BUFFER_POOL_CAPACITY
                ==> (#[trigger] final(self).buffer_pool@[i]).buffer@
                    == Seq::new(DATA_BUFFER_SIZE_IN_4KB as nat, |j: int| 0u8),
    {
        let mut i: usize = 0;
        while i < DATA_BUFFER_POOL_CAPACITY
            invariant
                i <= DATA_BUFFER_POOL_CAPACITY,
                old(self).wf(),
                old(self).buffer_pool@.len() == 0,
                self.device_name == old(self).device_name,
                self.used_buf_list == old(self).used_buf_list,
                self.lpn_hash == old(self).lpn_hash,
                self.buffer_pool@.len() == i,
                self.free_buf_list@.len() == i,
                forall|k: int| 0 <= k < i ==> #[trigger] self.free_buf_list@[k] == k as u32,
                forall|k: int| 0 <= k < i ==> {
                    &&& (#[trigger] self.buffer_pool@[k]).id == k
                    &&& self.buffer_pool@[k].lpn == 0u64
                    &&& self.buffer_pool@[k].buffer@
                        == Seq::new(DATA_BUFFER_SIZE_IN_4KB as nat, |j: int| 0u8)
                },
            decreases DATA_BUFFER_POOL_CAPACITY - i,
        {
            let mut buffer: Vec<u8> = Vec::with_capacity(DATA_BUFFER_SIZE_IN_4KB);
            let mut j: usize = 0;
            while j < DATA_BUFFER_SIZE_IN_4KB
                invariant
                    j <= DATA_BUFFER_SIZE_IN_4KB,
                    buffer@.len() == j,
                    forall|k: int| 0 <= k < j ==> #[trigger] buffer@[k] == 0u8,
                decreases DATA_BUFFER_SIZE_IN_4KB - j,
            {
                buffer.push(0u8);
                j = j + 1;
            }
            proof {
                assert(buffer@ =~= Seq::new(DATA_BUFFER_SIZE_IN_4KB as nat, |k: int| 0u8));
            }
            let data_buffer = DataDesc::new(i as u32, buffer);
            self.buffer_pool.push(data_buffer);
            self.free_buf_list.push_back(i as u32);
            i = i + 1;
        }
        proof {
            assert(self.free_buf_list@ =~= Seq::new(
                DATA_BUFFER_POOL_CAPACITY as nat,
                |k: int| k as u32,
            ));
            assert(self.used_buf_list@ =~= Seq::<u32>::empty());
        }
    }

    /// Write `host_buffer` to logical page `lpn`: claim the oldest free slot
    /// (FIFO), copy the data over its front, record `lpn -> slot` in the map
    /// (overwriting a prior mapping for `lpn`; the prior slot stays occupied)
    /// and append the slot to the occupied list. Fails with `PoolExhausted`,
    /// changing nothing, exactly when the free list is empty.
    pub fn write(&mut self, lpn: u64, host_buffer: &Vec<u8>) -> (result: Result<
        (),
        DeviceError,
    >)
        requires
            old(self).wf(),
            host_buffer@.len() <= DATA_BUFFER_SIZE_IN_4KB,
        ensures
            final(self).wf(),
            old(self).free_buf_list@.len() == 0 ==> {
                &&& result == Err::<(), DeviceError>(DeviceError::PoolExhausted)
                &&& final(self).device_name == old(self).device_name
                &&& final(self).free_buf_list@ == old(self).free_buf_list@
                &&& final(self).used_buf_list@ == old(self).used_buf_list@
                &&& final(self).buffer_pool@ == old(self).buffer_pool@
                &&& final(self).lpn_hash@ == old(self).lpn_hash@
            },
            old(self).free_buf_list@.len() > 0 ==> {
                &&& result == Ok::<(), DeviceError>(())
                &&& write_transition(*old(self), *final(self), lpn, host_buffer@)
            },
    {
        match self.free_buf_list.pop_front() {
            Some(index) => {
                proof {
                    assert(old(self).free_buf_list@[0] == index);
                    assert(index < self.buffer_pool@.len());
                }
                let idx: usize = index as usize;
                let slot = &mut self.buffer_pool[idx];
                slot.copy_buffer(host_buffer);
                slot.lpn = lpn;
                self.lpn_hash.insert(lpn, index);
                self.used_buf_list.push(index);
                proof {
                    let pre = *old(self);
                    assert(self.free_buf_list@ =~= pre.free_buf_list@.skip(1));
                    assert forall|l: u64| #[trigger] self.lpn_hash@.contains_key(l) implies {
                        &&& self.used_buf_list@.contains(self.lpn_hash@[l])
                        &&& self.buffer_pool@[self.lpn_hash@[l] as int].lpn == l
                    } by {
                        if l == lpn {
                            assert(self.used_buf_list@[self.used_buf_list@.len() - 1] == index);
                        } else {
                            assert(pre.lpn_hash@.contains_key(l));
                            let s = pre.lpn_hash@[l];
                            assert(pre.used_buf_list@.contains(s));
                            let w = choose|w: int|
                                0 <= w < pre.used_buf_list@.len() && pre.used_buf_list@[w] == s;
                            assert(self.used_buf_list@[w] == s);
                            assert(pre.free_buf_list@[0] != pre.used_buf_list@[w]);
                        }
                    }
                }
                Ok(())
            },
            None => Err(DeviceError::PoolExhausted),
        }
    }

    /// Read logical page `lpn` into `buf`. On a hit the mapped slot's full
    /// `DATA_BUFFER_SIZE_IN_4KB` bytes are copied to the front of `buf` (a
    /// caller that wrote fewer bytes sees the slot's stale tail); a miss is a
    /// normal outcome that copies nothing. Pool state is never changed.
    pub fn read(&self, lpn: u64, buf: &mut Vec<u8>) -> (mapped: bool)
        requires
            self.wf(),
            old(buf)@.len() >= DATA_BUFFER_SIZE_IN_4KB,
        ensures
            mapped == self.lpn_hash@.contains_key(lpn),
            final(buf)@ == self.read_output(lpn, old(buf)@),
            final(buf)@.len() == old(buf)@.len(),
    {
        match self.lpn_hash.get(&lpn) {
            Some(id) => {
                let index: u32 = *id;
                proof {
                    assert(self.lpn_hash@[lpn] == index);
                    assert(self.used_buf_list@.contains(index));
                    let w = choose|w: int|
                        0 <= w < self.used_buf_list@.len() && self.used_buf_list@[w] == index;
                    assert(self.used_buf_list@[w] < self.buffer_pool@.len());
                }
                let idx: usize = index as usize;
                let src_len: usize = self.buffer_pool[idx].buffer.len();
                let mut j: usize = 0;
                while j < src_len
                    invariant
                        self.wf(),
                        idx < self.buffer_pool@.len(),
                        src_len == self.buffer_pool@[idx as int].buffer@.len(),
                        src_len == DATA_BUFFER_SIZE_IN_4KB,
                        j <= src_len,
                        buf@.len() == old(buf)@.len(),
                        buf@.len() >= DATA_BUFFER_SIZE_IN_4KB,
                        forall|k: int| 0 <= k < j
                            ==> buf@[k] == self.buffer_pool@[idx as int].buffer@[k],
                        forall|k: int| j <= k < buf@.len() ==> buf@[k] == old(buf)@[k],
                    decreases src_len - j,
                {
                    let b = self.buffer_pool[idx].buffer[j];
                    buf.set(j, b);
                    j = j + 1;
                }
                proof {
                    assert(buf@ =~= self.slot_bytes(index) + old(buf)@.skip(
                        DATA_BUFFER_SIZE_IN_4KB as int,
                    ));
                }
                true
            },
            None => false,
        }
    }

    /// The records that a flush must persist, without changing any state: one
    /// `(LPN, page bytes)` record per occupied slot whose mapping is current,
    /// in occupied-list (write) order. A caller persists these, then calls
    /// `flush` to reclaim the slots; if persisting fails, the pool is
    /// untouched and the call can simply be repeated.
    pub fn flush_records(&self) -> (records: Vec<FlushRecord>)
        requires
            self.wf(),
        ensures
            records@.map_values(|r: FlushRecord| r@) == self.flush_record_seq(),
    {
        let mut records: Vec<FlushRecord> = Vec::new();
        let mut i: usize = 0;
        while i < self.used_buf_list.len()
            invariant
                self.wf(),
                i <= self.used_buf_list@.len(),
                records@.map_values(|r: FlushRecord| r@) == self.records_for(
                    self.used_buf_list@.take(i as int),
                ),
            decreases self.used_buf_list@.len() - i,
        {
            let slot: u32 = self.used_buf_list[i];
            let idx: usize = slot as usize;
            let l: u64 = self.buffer_pool[idx].lpn;
            let mut current: bool = false;
            match self.lpn_hash.get(&l) {
                Some(mapped) => {
                    if *mapped == slot {
                        current = true;
                    }
                },
                None => {},
            }
            proof {
                assert(current == self.mapping_current(slot));
            }
            if current {
                let src_len: usize = self.buffer_pool[idx].buffer.len();
                let mut data: Vec<u8> = Vec::with_capacity(src_len);
                let mut j: usize = 0;
                while j < src_len
                    invariant
                        idx < self.buffer_pool@.len(),
                        src_len == self.buffer_pool@[idx as int].buffer@.len(),
                        j <= src_len,
                        data@.len() == j,
                        forall|k: int| 0 <= k < j
                            ==> #[trigger] data@[k] == self.buffer_pool@[idx as int].buffer@[k],
                    decreases src_len - j,
                {
                    let b = self.buffer_pool[idx].buffer[j];
                    data.push(b);
                    j = j + 1;
                }
                proof {
                    assert(data@ =~= self.slot_bytes(slot));
                }
                records.push(FlushRecord { lpn: l, data });
            }
            proof {
                let taken = self.used_buf_list@.take(i + 1 as int);
                assert(taken.drop_last() =~= self.used_buf_list@.take(i as int));
                assert(taken.last() == slot);
                assert(records@.map_values(|r: FlushRecord| r@) =~= self.records_for(taken));
            }
            i = i + 1;
        }
        proof {
            assert(self.used_buf_list@.take(self.used_buf_list@.len() as int)
                =~= self.used_buf_list@);
        }
        records
    }

    /// Reclaim every occupied slot: append the occupied slot indices to the
    /// back of the free list in occupied-list order, clear the occupied list,
    /// and clear the LPN map in full. Call after the records from
    /// `flush_records` have been persisted.
    pub fn flush(&mut self)
        requires
            old(self).wf(),
        ensures
            final(self).wf(),
            flush_transition(*old(self), *final(self)),
    {
        let mut i: usize = 0;
        while i < self.used_buf_list.len()
            invariant
                i <= self.used_buf_list@.len(),
                self.device_name == old(self).device_name,
                self.used_buf_list == old(self).used_buf_list,
                self.buffer_pool == old(self).buffer_pool,
                self.lpn_hash == old(self).lpn_hash,
                self.free_buf_list@ == old(self).free_buf_list@ + old(self).used_buf_list@.take(
                    i as int,
                ),
            decreases self.used_buf_list@.len() - i,
        {
            let n: u32 = self.used_buf_list[i];
            self.free_buf_list.push_back(n);
            proof {
                assert(old(self).free_buf_list@ + old(self).used_buf_list@.take(i + 1 as int)
                    =~= (old(self).free_buf_list@ + old(self).used_buf_list@.take(i as int)).push(
                    n,
                ));
            }
            i = i + 1;
        }
        self.used_buf_list.clear();
        self.lpn_hash = HashMap::new();
        proof {
            let pre = *old(self);
            assert(pre.used_buf_list@.take(pre.used_buf_list@.len() as int)
                =~= pre.used_buf_list@);
            assert forall|i: int, j: int| 0 <= i < j < self.free_buf_list@.len() implies
                self.free_buf_list@[i] != self.free_buf_list@[j] by {
                let flen = pre.free_buf_list@.len() as int;
                if j < flen {
                    assert(pre.free_buf_list@[i] != pre.free_buf_list@[j]);
                } else if i < flen {
                    assert(pre.free_buf_list@[i] != pre.used_buf_list@[j - flen]);
                } else {
                    assert(pre.used_buf_list@[i - flen] != pre.used_buf_list@[j - flen]);
                }
            }
        }
    }

    /// How many slots are still free: the current length of the free list.
    pub fn check_reamin_buffer(&self) -> (count: usize)
        ensures
            count == self.free_buf_list@.len(),
    {
        self.free_buf_list.len()
    }
}

/// Capacity conservation: in every well-formed state the free and occupied
/// lists together account for one entry per pool slot; once the pool is
/// initialized their lengths always sum to `DATA_BUFFER_POOL_CAPACITY`.
pub proof fn lemma_capacity_conservation(device: BlockDevice)
    requires
        device.wf(),
        device.initialized(),
    ensures
        device.free_buf_list@.len() + device.used_buf_list@.len() == DATA_BUFFER_POOL_CAPACITY,
{
}

/// Mapping validity: every slot index present as a value in the LPN map of a
/// well-formed device stands in the occupied list.
pub proof fn lemma_mapping_validity(device: BlockDevice, lpn: u64)
    requires
        device.wf(),
        device.lpn_hash@.contains_key(lpn),
    ensures
        device.used_buf_list@.contains(device.lpn_hash@[lpn]),
{
}

/// Round-trip: after a successful write of `data` (at most one page) to
/// `lpn`, a read of `lpn` hits, and the first `data.len()` bytes it delivers
/// into any large-enough destination buffer are exactly `data`.
pub proof fn lemma_write_read_round_trip(
    pre: BlockDevice,
    post: BlockDevice,
    lpn: u64,
    data: Seq<u8>,
    dest: Seq<u8>,
)
    requires
        pre.wf(),
        pre.free_buf_list@.len() > 0,
        data.len() <= DATA_BUFFER_SIZE_IN_4KB,
        dest.len() >= DATA_BUFFER_SIZE_IN_4KB,
        write_transition(pre, post, lpn, data),
    ensures
        post.lpn_hash@.contains_key(lpn),
        post.read_output(lpn, dest).take(data.len() as int) == data,
{
    let slot = pre.free_buf_list@[0];
    assert(slot < pre.buffer_pool@.len());
    assert(post.lpn_hash@[lpn] == slot);
    assert(post.read_output(lpn, dest).take(data.len() as int) =~= data);
}

/// Flush reclamation: a flush of a well-formed initialized device frees every
/// slot of the pool and removes every LPN mapping, so any subsequent read
/// misses.
pub proof fn lemma_flush_reclaims(pre: BlockDevice, post: BlockDevice, lpn: u64)
    requires
        pre.wf(),
        pre.initialized(),
        flush_transition(pre, post),
    ensures
        post.free_buf_list@.len() == DATA_BUFFER_POOL_CAPACITY,
        !post.lpn_hash@.contains_key(lpn),
{
}

} // verus!
