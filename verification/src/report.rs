//! The exact text the tool prints for each command outcome.

use vstd::prelude::*;

verus! {

/// The confirmation printed after a successful bind. The identifiers appear
/// as the user gave them, untrimmed.
pub open spec fn bind_confirmation_text(device_id: Seq<char>, driver_id: Seq<char>) -> Seq<
    char,
> {
    "Device "@ + device_id + " binded to the driver "@ + driver_id
}

/// The report printed when a `bind` command names an unknown device.
pub open spec fn device_not_found_text(device_id: Seq<char>) -> Seq<char> {
    "Device "@ + device_id + " not found"@
}

/// The report printed when a `bind` command names an unknown driver.
pub open spec fn driver_not_found_text(driver_id: Seq<char>) -> Seq<char> {
    "Driver "@ + driver_id + " not found"@
}

/// The confirmation printed after a successful unbind.
pub open spec fn unbind_confirmation_text(driver_id: Seq<char>, device_id: Seq<char>) -> Seq<
    char,
> {
    "drv "@ + driver_id + " unbinded from "@ + device_id
}

/// The report printed when an `unbind` command names an unknown device.
pub open spec fn unbind_not_found_text() -> Seq<char> {
    "device not found"@
}

/// `needle` appears verbatim somewhere in `hay`.
pub open spec fn contains_seq(hay: Seq<char>, needle: Seq<char>) -> bool {
    exists|i: int|
        0 <= i && i + needle.len() <= hay.len() && #[trigger] hay.subrange(
            i,
            i + needle.len() as int,
        ) == needle
}

/// A successful bind's confirmation contains both identifiers verbatim: the
/// device identifier and the driver identifier each appear in the text.
pub proof fn lemma_bind_confirmation_contains_ids(device_id: Seq<char>, driver_id: Seq<char>)
    ensures
        contains_seq(bind_confirmation_text(device_id, driver_id), device_id),
        contains_seq(bind_confirmation_text(device_id, driver_id), driver_id),
{
    let t = bind_confirmation_text(device_id, driver_id);
    let a = "Device "@.len() as int;
    assert(t.subrange(a, a + device_id.len() as int) =~= device_id);
    assert(t.subrange(t.len() - driver_id.len(), t.len() as int) =~= driver_id);
}

/// Builds the confirmation line for a successful bind.
pub fn bind_confirmation(device_id: &str, driver_id: &str) -> (r: String)
    ensures
        r@ == bind_confirmation_text(device_id@, driver_id@),
{
    let mut m = String::from_str("Device ");
    m.append(device_id);
    m.append(" binded to the driver ");
    m.append(driver_id);
    m
}

/// Builds the report for a `bind` command whose device is unknown.
pub fn device_not_found(device_id: &str) -> (r: String)
    ensures
        r@ == device_not_found_text(device_id@),
{
    let mut m = String::from_str("Device ");
    m.append(device_id);
    m.append(" not found");
    m
}

/// Builds the report for a `bind` command whose driver is unknown.
pub fn driver_not_found(driver_id: &str) -> (r: String)
    ensures
        r@ == driver_not_found_text(driver_id@),
{
    let mut m = String::from_str("Driver ");
    m.append(driver_id);
    m.append(" not found");
    m
}

/// Builds the confirmation line for a successful unbind.
pub fn unbind_confirmation(driver_id: &str, device_id: &str) -> (r: String)
    ensures
        r@ == unbind_confirmation_text(driver_id@, device_id@),
{
    let mut m = String::from_str("drv ");
    m.append(driver_id);
    m.append(" unbinded from ");
    m.append(device_id);
    m
}

/// Builds the report for an `unbind` command whose device is unknown.
pub fn unbind_not_found() -> (r: String)
    ensures
        r@ == unbind_not_found_text(),
{
    String::from_str("device not found")
}

} // verus!
