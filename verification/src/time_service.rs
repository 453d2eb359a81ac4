//! Choosing the standard time source.

use vstd::prelude::*;

verus! {

/// The standard time in milliseconds when the wslui server gave a usable
/// (positive) one; `None` means it did not, and the caller asks the generic
/// internet time source for `timezone` instead.
pub fn get_standard_time(wslui_ts: i64) -> (r: Option<i64>)
    ensures
        wslui_ts > 0 ==> r == Some(wslui_ts),
        wslui_ts <= 0 ==> r is None,
{
    if wslui_ts > 0 {
        Some(wslui_ts)
    } else {
        None
    }
}

} // verus!
