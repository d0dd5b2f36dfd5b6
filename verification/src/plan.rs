//! Deciding what a `bind` or `unbind` command does.
//!
//! A command is resolved against the enumeration alone: the decision names
//! the enumerated device and driver to act on, or says which lookup failed.
//! Performing the kernel-side association is the caller's business.

use vstd::prelude::*;
use crate::ident::trimmed;
use crate::lookup::{
    find_device, find_driver, first_device_match, first_driver_match, no_device_match,
    no_driver_match,
};
use crate::model::Device;

verus! {

/// The outcome of resolving a `bind <device_id> <driver_id>` command.
pub enum BindPlan {
    /// No enumerated device matches the trimmed device identifier.
    DeviceNotFound,
    /// A device matches, but no enumerated driver matches the trimmed
    /// driver identifier.
    DriverNotFound,
    /// Both lookups succeeded: bind the driver at `driver` to the device at
    /// `device`.
    Bind { device: usize, driver: usize },
}

/// The outcome of resolving an `unbind <device_id>` command.
pub enum UnbindPlan {
    /// No enumerated device matches the trimmed device identifier.
    DeviceNotFound,
    /// The device at `device` is the one to unbind from its current driver.
    Unbind { device: usize },
}

/// Resolves a `bind` command: the device is looked up first, then the
/// driver, each by its trimmed identifier, and the first match wins.
pub fn plan_bind(
    devices: &Vec<Device>,
    drivers: &Vec<String>,
    device_id: &str,
    driver_id: &str,
) -> (r: BindPlan)
    ensures
        (r is DeviceNotFound) <==> no_device_match(devices@, trimmed(device_id@)),
        (r is DriverNotFound) <==> (!no_device_match(devices@, trimmed(device_id@))
            && no_driver_match(drivers@, trimmed(driver_id@))),
        r matches BindPlan::Bind { device, driver } ==> (first_device_match(
            devices@,
            trimmed(device_id@),
            device as int,
        ) && first_driver_match(drivers@, trimmed(driver_id@), driver as int)),
{
    let dev = find_device(devices, device_id);
    match dev {
        None => BindPlan::DeviceNotFound,
        Some(device) => {
            let drv = find_driver(drivers, driver_id);
            match drv {
                None => BindPlan::DriverNotFound,
                Some(driver) => BindPlan::Bind { device, driver },
            }
        },
    }
}

/// Resolves an `unbind` command: the device is looked up by its trimmed
/// identifier, and the first match wins.
pub fn plan_unbind(devices: &Vec<Device>, device_id: &str) -> (r: UnbindPlan)
    ensures
        (r is DeviceNotFound) <==> no_device_match(devices@, trimmed(device_id@)),
        r matches UnbindPlan::Unbind { device } ==> first_device_match(
            devices@,
            trimmed(device_id@),
            device as int,
        ),
{
    match find_device(devices, device_id) {
        None => UnbindPlan::DeviceNotFound,
        Some(device) => UnbindPlan::Unbind { device },
    }
}

} // verus!
