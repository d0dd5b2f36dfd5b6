//! Verified core of a small PCI device/driver binding tool.
//!
//! The library holds everything that can be reasoned about without touching
//! the kernel: trimming user-supplied identifiers, looking devices and
//! drivers up in an enumeration, deciding what a `bind` or `unbind` command
//! should do, and building the exact text the tool prints. The surrounding
//! binary enumerates sysfs, hands the results over as plain values, and
//! performs the control-file writes the library's decisions call for.

pub mod ident;
pub mod listing;
pub mod lookup;
pub mod model;
pub mod plan;
pub mod report;
