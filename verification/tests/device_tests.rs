use mini_pos::device::BlockDevice;
use mini_pos::device::DataDesc;
use mini_pos::device::DeviceError;
use mini_pos::device::DATA_BUFFER_POOL_CAPACITY;
use mini_pos::device::DATA_BUFFER_SIZE_IN_4KB;

fn fresh_device() -> BlockDevice {
    let mut device = BlockDevice::new("device01");
    device.init_buffer_pool();
    device
}

fn page_of(byte: u8) -> Vec<u8> {
    vec![byte; DATA_BUFFER_SIZE_IN_4KB]
}

#[test]
fn new_device_has_name_and_empty_pool() {
    let device = BlockDevice::new("device01");
    assert_eq!(device.get_device_name(), "device01");
    assert_eq!(device.check_reamin_buffer(), 0);
}

#[test]
fn init_fills_free_list_to_capacity() {
    let device = fresh_device();
    assert_eq!(device.check_reamin_buffer(), DATA_BUFFER_POOL_CAPACITY);
}

#[test]
fn write_before_init_reports_pool_exhausted() {
    let mut device = BlockDevice::new("device01");
    let result = device.write(0, &b"abc".to_vec());
    assert_eq!(result, Err(DeviceError::PoolExhausted));
}

#[test]
fn round_trip_short_write() {
    let mut device = fresh_device();
    let payload = b"Hello Rust World".to_vec();
    assert_eq!(payload.len(), 16);
    device.write(42, &payload).unwrap();
    let mut read_back = vec![0u8; DATA_BUFFER_SIZE_IN_4KB];
    let mapped = device.read(42, &mut read_back);
    assert!(mapped);
    assert_eq!(&read_back[..16], b"Hello Rust World");
}

#[test]
fn read_copies_full_slot_with_stale_tail() {
    let mut device = fresh_device();
    for lpn in 0..DATA_BUFFER_POOL_CAPACITY as u64 {
        device.write(lpn, &page_of(7)).unwrap();
    }
    device.flush();
    // Slot 0 is reused without zeroing: a shorter write leaves stale bytes.
    device.write(2, &vec![9u8; 4]).unwrap();
    let mut read_back = vec![0u8; DATA_BUFFER_SIZE_IN_4KB];
    assert!(device.read(2, &mut read_back));
    assert_eq!(&read_back[..4], &[9, 9, 9, 9]);
    assert_eq!(&read_back[4..], &page_of(7)[4..]);
}

#[test]
fn unmapped_read_misses_and_changes_nothing() {
    let mut device = fresh_device();
    device.write(3, &vec![1u8, 2, 3]).unwrap();
    let free_before = device.check_reamin_buffer();
    let mut destination = vec![5u8; DATA_BUFFER_SIZE_IN_4KB];
    let mapped = device.read(1000, &mut destination);
    assert!(!mapped);
    assert_eq!(destination, vec![5u8; DATA_BUFFER_SIZE_IN_4KB]);
    assert_eq!(device.check_reamin_buffer(), free_before);
    // The earlier mapping is still intact.
    let mut read_back = vec![0u8; DATA_BUFFER_SIZE_IN_4KB];
    assert!(device.read(3, &mut read_back));
    assert_eq!(&read_back[..3], &[1, 2, 3]);
}

#[test]
fn eleventh_write_exhausts_the_pool() {
    let mut device = fresh_device();
    for lpn in 0..DATA_BUFFER_POOL_CAPACITY as u64 {
        device.write(lpn, &vec![lpn as u8; 8]).unwrap();
    }
    assert_eq!(device.check_reamin_buffer(), 0);
    let result = device.write(10, &vec![10u8; 8]);
    assert_eq!(result, Err(DeviceError::PoolExhausted));
}

#[test]
fn rewriting_an_lpn_consumes_a_fresh_slot() {
    let mut device = fresh_device();
    for _ in 0..DATA_BUFFER_POOL_CAPACITY {
        device.write(77, &vec![1u8; 4]).unwrap();
    }
    // One distinct LPN, rewritten often, still exhausts the pool.
    assert_eq!(device.check_reamin_buffer(), 0);
    assert_eq!(device.write(77, &vec![1u8; 4]), Err(DeviceError::PoolExhausted));
}

#[test]
fn flush_reclaims_every_slot_and_unmaps() {
    let mut device = fresh_device();
    for lpn in 0..DATA_BUFFER_POOL_CAPACITY as u64 {
        device.write(lpn, &vec![lpn as u8; 8]).unwrap();
    }
    device.flush();
    assert_eq!(device.check_reamin_buffer(), DATA_BUFFER_POOL_CAPACITY);
    let mut destination = vec![0u8; DATA_BUFFER_SIZE_IN_4KB];
    for lpn in 0..DATA_BUFFER_POOL_CAPACITY as u64 {
        assert!(!device.read(lpn, &mut destination));
    }
}

#[test]
fn flush_records_lists_current_mappings_in_write_order() {
    let mut device = fresh_device();
    device.write(5, &vec![50u8; 4]).unwrap(); // slot 0, superseded below
    device.write(6, &vec![60u8; 4]).unwrap(); // slot 1
    device.write(5, &vec![55u8; 4]).unwrap(); // slot 2, current for LPN 5
    let records = device.flush_records();
    // Slot 0 holds stale data for LPN 5 and is skipped.
    assert_eq!(records.len(), 2);
    assert_eq!(records[0].lpn, 6);
    assert_eq!(&records[0].data[..4], &[60, 60, 60, 60]);
    assert_eq!(records[0].data.len(), DATA_BUFFER_SIZE_IN_4KB);
    assert_eq!(records[1].lpn, 5);
    assert_eq!(&records[1].data[..4], &[55, 55, 55, 55]);
    // Computing the records changed nothing; flushing then reclaims all.
    assert_eq!(
        device.check_reamin_buffer(),
        DATA_BUFFER_POOL_CAPACITY - 3
    );
    device.flush();
    assert_eq!(device.check_reamin_buffer(), DATA_BUFFER_POOL_CAPACITY);
}

#[test]
fn flush_records_of_idle_device_is_empty() {
    let device = fresh_device();
    assert!(device.flush_records().is_empty());
}

#[test]
fn freed_slots_are_reused_in_fifo_order() {
    let mut device = fresh_device();
    device.write(1, &vec![1u8; 2]).unwrap(); // slot 0
    device.write(2, &vec![2u8; 2]).unwrap(); // slot 1
    device.flush(); // free list: 2..9, then 0, 1
    for lpn in 10..18u64 {
        device.write(lpn, &vec![3u8; 2]).unwrap(); // slots 2..9
    }
    let records = device.flush_records();
    assert_eq!(records.len(), 8);
    device.flush();
    // The next write reuses slot 0, the oldest freed slot.
    device.write(99, &vec![4u8; 2]).unwrap();
    let records = device.flush_records();
    assert_eq!(records.len(), 1);
    assert_eq!(records[0].lpn, 99);
    assert_eq!(&records[0].data[..2], &[4, 4]);
}

#[test]
fn demo_scenario_counts_free_slots() {
    let mut device = fresh_device();
    let payload = b"Hello Rust World".to_vec();
    device.write(0, &payload).unwrap();
    let mut read_back = vec![0u8; DATA_BUFFER_SIZE_IN_4KB];
    assert!(device.read(0, &mut read_back));
    assert_eq!(&read_back[..16], &payload[..]);
    assert_eq!(device.check_reamin_buffer(), 9);
    for n in 1..10u64 {
        device.write(n, &payload).unwrap();
        assert_eq!(device.check_reamin_buffer(), 9 - n as usize);
    }
    device.flush();
    assert_eq!(device.check_reamin_buffer(), 10);
}

#[test]
fn data_desc_copy_keeps_prior_tail() {
    let mut desc = DataDesc::new(4, vec![8u8; 6]);
    assert_eq!(desc.get_index(), 4);
    desc.copy_buffer(&vec![1u8, 2]);
    assert_eq!(desc.buffer, vec![1, 2, 8, 8, 8, 8]);
}
