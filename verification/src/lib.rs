//! A block storage emulator backed by a fixed pool of in-memory page buffers.
//!
//! The core is the buffer-pool device in [`device`]: a fixed set of page
//! slots, a FIFO free list, an ordered occupied list, and a map from logical
//! page numbers (LPNs) to occupied slots, with a write/read/flush protocol
//! whose state transitions are fully specified and verified.

pub mod device;
pub mod device_driver;
pub mod device_manager;
