//! Plain-value model of what a sysfs enumeration yields.

use vstd::prelude::*;

verus! {

/// One enumerated PCI device: its bus-address identifier and, when the
/// kernel currently associates a driver with it, that driver's name.
pub struct Device {
    pub id: String,
    pub driver: Option<String>,
}

impl Device {
    /// Whether the device currently has an associated driver.
    pub open spec fn has_driver(self) -> bool {
        self.driver is Some
    }
}

} // verus!
