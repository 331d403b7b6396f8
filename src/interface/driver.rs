//! Device drivers.
use vstd::prelude::*;

verus! {

/// A device driver: named, and initialized once before the kernel goes on.
pub trait DeviceDriver {
    /// The name of the device the driver handles.
    fn compatible(&self) -> &str;

    /// Brings the device up; an error halts the boot.
    fn init(&self) -> Result<(), ()> {
        Ok(())
    }
}

} // verus!
