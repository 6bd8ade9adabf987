//! The driver interface used by the device registry: a registry hands a
//! device handle to a driver, which writes a payload through it and reads it
//! back. Registries and drivers own OS file handles, so they live with the
//! program around this library; only their interface is fixed here.

use vstd::prelude::*;

verus! {

/// A driver bound to one open device handle. Implementations perform I/O and
/// are therefore unverified callers of this library, not part of it.
pub trait DeviceDriver {
    fn write(&mut self) -> Result<(), std::io::Error>;

    fn read(&mut self) -> Result<(), std::io::Error>;
}

} // verus!
