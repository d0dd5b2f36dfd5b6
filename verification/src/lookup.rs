//! Looking a device or driver up by identifier.
//!
//! A lookup is a linear scan over the enumeration: the user's input is
//! trimmed of surrounding whitespace and compared for string equality, and
//! the first match wins.

use vstd::prelude::*;
use crate::ident::{trim, trimmed};
use crate::model::Device;

verus! {

/// No enumerated device carries the identifier `target`.
pub open spec fn no_device_match(devices: Seq<Device>, target: Seq<char>) -> bool {
    forall|k: int| 0 <= k < devices.len() ==> devices[k].id@ != target
}

/// Position `i` holds the first enumerated device whose identifier is `target`.
pub open spec fn first_device_match(devices: Seq<Device>, target: Seq<char>, i: int) -> bool {
    &&& 0 <= i < devices.len()
    &&& devices[i].id@ == target
    &&& forall|k: int| 0 <= k < i ==> devices[k].id@ != target
}

/// No enumerated driver carries the identifier `target`.
pub open spec fn no_driver_match(drivers: Seq<String>, target: Seq<char>) -> bool {
    forall|k: int| 0 <= k < drivers.len() ==> drivers[k]@ != target
}

/// Position `i` holds the first enumerated driver whose identifier is `target`.
pub open spec fn first_driver_match(drivers: Seq<String>, target: Seq<char>, i: int) -> bool {
    &&& 0 <= i < drivers.len()
    &&& drivers[i]@ == target
    &&& forall|k: int| 0 <= k < i ==> drivers[k]@ != target
}

/// Finds the first device whose identifier equals the trimmed `target`.
pub fn find_device(devices: &Vec<Device>, target: &str) -> (r: Option<usize>)
    ensures
        match r {
            Some(i) => first_device_match(devices@, trimmed(target@), i as int),
            None => no_device_match(devices@, trimmed(target@)),
        },
{
    let t = trim(target);
    let mut i: usize = 0;
    while i < devices.len()
        invariant
            i <= devices.len(),
            t@ == trimmed(target@),
            forall|k: int| 0 <= k < i ==> devices@[k].id@ != trimmed(target@),
        decreases devices.len() - i,
    {
        if devices[i].id == t {
            return Some(i);
        }
        i = i + 1;
    }
    None
}

/// Finds the first driver whose identifier equals the trimmed `target`.
pub fn find_driver(drivers: &Vec<String>, target: &str) -> (r: Option<usize>)
    ensures
        match r {
            Some(i) => first_driver_match(drivers@, trimmed(target@), i as int),
            None => no_driver_match(drivers@, trimmed(target@)),
        },
{
    let t = trim(target);
    let mut i: usize = 0;
    while i < drivers.len()
        invariant
            i <= drivers.len(),
            t@ == trimmed(target@),
            forall|k: int| 0 <= k < i ==> drivers@[k]@ != trimmed(target@),
        decreases drivers.len() - i,
    {
        if drivers[i] == t {
            return Some(i);
        }
        i = i + 1;
    }
    None
}

} // verus!
