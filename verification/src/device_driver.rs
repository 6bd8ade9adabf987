//! The device-driver abstraction: a description of a device and the trait a
//! driver implements. Drivers do file I/O, so implementations live with the
//! program around this library; the library only fixes the interface.

use vstd::prelude::*;

verus! {

/// Relies on `std::io::Error`: the error type of the standard library's I/O
/// operations, carried through driver results. It is opaque here; nothing is
/// assumed of its values.
#[verifier::external_type_specification]
#[verifier::external_body]
pub struct ExIoError(std::io::Error);

/// What a driver reports about the device it drives.
pub struct DeviceInfo {
    pub name: String,
    pub id: u64,
    pub total_size: u64,
    pub used_size: u64,
    pub block_szie: u64,
}

/// A driver for one device: it can describe the device and move a payload to
/// and from it. Implementations perform I/O and are therefore unverified
/// callers of this library, not part of it.
pub trait DeviceDriver {
    fn get_device_info(&self) -> Result<DeviceInfo, std::io::Error>;

    fn write() -> Result<(), std::io::Error>;

    fn read(&self) -> Result<(), std::io::Error>;
}

} // verus!
