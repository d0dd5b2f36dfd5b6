//! The output of the `list` command.
//!
//! The listing holds a `Devices:` header, one line per enumerated device
//! with a nested line for its driver when it has one, then a `Drivers:`
//! header and one line per enumerated driver.

use vstd::prelude::*;
use crate::model::Device;

verus! {

/// The line printed for one enumerated device.
pub open spec fn device_line_text(id: Seq<char>) -> Seq<char> {
    "\tPCI Device: "@ + id
}

/// The nested line printed under a device for its current driver.
pub open spec fn nested_driver_line_text(driver_id: Seq<char>) -> Seq<char> {
    "\t\tDriver: "@ + driver_id
}

/// The line printed for one enumerated driver.
pub open spec fn driver_line_text(id: Seq<char>) -> Seq<char> {
    "\tPCI Driver: "@ + id
}

/// The lines one device contributes: its own line, and its driver's nested
/// line when it has a driver.
pub open spec fn device_entry(d: Device) -> Seq<Seq<char>> {
    match d.driver {
        Some(drv) => seq![device_line_text(d.id@), nested_driver_line_text(drv@)],
        None => seq![device_line_text(d.id@)],
    }
}

/// The lines the device section contributes, in enumeration order.
pub open spec fn device_lines(devices: Seq<Device>) -> Seq<Seq<char>>
    decreases devices.len(),
{
    if devices.len() == 0 {
        Seq::empty()
    } else {
        device_lines(devices.drop_last()) + device_entry(devices.last())
    }
}

/// The lines the driver section contributes, in enumeration order.
pub open spec fn driver_lines(drivers: Seq<String>) -> Seq<Seq<char>>
    decreases drivers.len(),
{
    if drivers.len() == 0 {
        Seq::empty()
    } else {
        driver_lines(drivers.drop_last()).push(driver_line_text(drivers.last()@))
    }
}

/// The whole listing: both headers and both sections.
pub open spec fn list_text(devices: Seq<Device>, drivers: Seq<String>) -> Seq<Seq<char>> {
    seq!["Devices:"@] + device_lines(devices) + seq!["Drivers:"@] + driver_lines(drivers)
}

/// How many devices currently have a driver.
pub open spec fn count_with_driver(devices: Seq<Device>) -> int
    decreases devices.len(),
{
    if devices.len() == 0 {
        0
    } else {
        count_with_driver(devices.drop_last()) + if devices.last().has_driver() {
            1int
        } else {
            0int
        }
    }
}

/// The device section holds one line per device plus one nested line per
/// device that has a driver.
proof fn lemma_device_lines_len(devices: Seq<Device>)
    ensures
        device_lines(devices).len() == devices.len() + count_with_driver(devices),
    decreases devices.len(),
{
    if devices.len() > 0 {
        lemma_device_lines_len(devices.drop_last());
    }
}

/// The driver section holds exactly one line per driver.
proof fn lemma_driver_lines_len(drivers: Seq<String>)
    ensures
        driver_lines(drivers).len() == drivers.len(),
    decreases drivers.len(),
{
    if drivers.len() > 0 {
        lemma_driver_lines_len(drivers.drop_last());
    }
}

/// The listing holds exactly one line per enumerated device and one per
/// enumerated driver, one nested line per device that currently has a
/// driver, and the two section headers: nothing else.
pub proof fn lemma_list_line_count(devices: Seq<Device>, drivers: Seq<String>)
    ensures
        list_text(devices, drivers).len() == 2 + devices.len() + count_with_driver(devices)
            + drivers.len(),
{
    lemma_device_lines_len(devices);
    lemma_driver_lines_len(drivers);
}

/// Builds the listing, line by line, in enumeration order.
pub fn list_lines(devices: &Vec<Device>, drivers: &Vec<String>) -> (r: Vec<String>)
    ensures
        r.deep_view() == list_text(devices@, drivers@),
{
    let mut r: Vec<String> = Vec::new();
    r.push(String::from_str("Devices:"));
    proof {
        assert(r.deep_view() =~= seq!["Devices:"@] + device_lines(devices@.take(0)));
    }
    let mut i: usize = 0;
    while i < devices.len()
        invariant
            i <= devices.len(),
            r.deep_view() == seq!["Devices:"@] + device_lines(devices@.take(i as int)),
        decreases devices.len() - i,
    {
        let ghost prefix = r.deep_view();
        let d = &devices[i];
        let mut line = String::from_str("\tPCI Device: ");
        line.append(d.id.as_str());
        r.push(line);
        match &d.driver {
            Some(drv) => {
                let mut nested = String::from_str("\t\tDriver: ");
                nested.append(drv.as_str());
                r.push(nested);
                proof {
                    assert(r.deep_view() =~= prefix + device_entry(devices@[i as int]));
                }
            },
            None => {
                proof {
                    assert(r.deep_view() =~= prefix + device_entry(devices@[i as int]));
                }
            },
        }
        proof {
            assert(devices@.take(i + 1).drop_last() =~= devices@.take(i as int));
            assert(devices@.take(i + 1).last() == devices@[i as int]);
            assert(r.deep_view() =~= seq!["Devices:"@] + device_lines(devices@.take(i + 1)));
        }
        i = i + 1;
    }
    proof {
        assert(devices@.take(devices@.len() as int) =~= devices@);
    }
    r.push(String::from_str("Drivers:"));
    proof {
        assert(r.deep_view() =~= seq!["Devices:"@] + device_lines(devices@) + seq!["Drivers:"@]
            + driver_lines(drivers@.take(0)));
    }
    let mut j: usize = 0;
    while j < drivers.len()
        invariant
            j <= drivers.len(),
            r.deep_view() == seq!["Devices:"@] + device_lines(devices@) + seq!["Drivers:"@]
                + driver_lines(drivers@.take(j as int)),
        decreases drivers.len() - j,
    {
        let ghost prefix = r.deep_view();
        let mut line = String::from_str("\tPCI Driver: ");
        line.append(drivers[j].as_str());
        r.push(line);
        proof {
            assert(drivers@.take(j + 1).drop_last() =~= drivers@.take(j as int));
            assert(drivers@.take(j + 1).last() == drivers@[j as int]);
            assert(driver_lines(drivers@.take(j + 1)) == driver_lines(drivers@.take(j as int)).push(
                driver_line_text(drivers@[j as int]@),
            ));
            assert(r.deep_view() =~= prefix.push(driver_line_text(drivers@[j as int]@)));
            assert(r.deep_view() =~= seq!["Devices:"@] + device_lines(devices@) + seq!["Drivers:"@]
                + driver_lines(drivers@.take(j + 1)));
        }
        j = j + 1;
    }
    proof {
        assert(drivers@.take(drivers@.len() as int) =~= drivers@);
    }
    r
}

} // verus!
