//! Background refreshes: which page a periodic tick refreshes, and how long
//! a state change waits so that refreshes are at least a second apart.

use vstd::prelude::*;

verus! {

/// The tab of the distribution list.
pub const HOME_TAB: i32 = 0;

/// The tab of the USB devices.
pub const USB_TAB: i32 = 2;

/// The shortest time between two list refreshes, in milliseconds.
pub const MIN_REFRESH_INTERVAL_MS: u64 = 1000;

/// A periodic tick refreshes the distribution list only while its tab is shown.
pub fn wsl_refresh_due(selected_tab: i32) -> (r: bool)
    ensures
        r == (selected_tab == HOME_TAB),
{
    selected_tab == HOME_TAB
}

/// A periodic tick refreshes the USB devices only while their tab is shown.
pub fn usb_refresh_due(selected_tab: i32) -> (r: bool)
    ensures
        r == (selected_tab == USB_TAB),
{
    selected_tab == USB_TAB
}

/// How long to wait before refreshing after a state change, when the last
/// refresh was `elapsed_ms` ago: the rest of the minimum interval, or nothing.
pub fn refresh_delay_ms(elapsed_ms: u64) -> (r: u64)
    ensures
        elapsed_ms < MIN_REFRESH_INTERVAL_MS ==> r == MIN_REFRESH_INTERVAL_MS - elapsed_ms,
        elapsed_ms >= MIN_REFRESH_INTERVAL_MS ==> r == 0,
        elapsed_ms + r >= MIN_REFRESH_INTERVAL_MS,
{
    if elapsed_ms < MIN_REFRESH_INTERVAL_MS {
        MIN_REFRESH_INTERVAL_MS - elapsed_ms
    } else {
        0
    }
}

/// The wait before a refresh for a state change seen at `now_ms` when the
/// last refresh ended at `last_refresh_ms` (a clock that does not go back:
/// a `now_ms` before it counts as no time passed).
pub open spec fn listener_wait(last_refresh_ms: int, now_ms: int) -> int {
    let elapsed = if now_ms >= last_refresh_ms { now_ms - last_refresh_ms } else { 0 };
    if elapsed < MIN_REFRESH_INTERVAL_MS { MIN_REFRESH_INTERVAL_MS - elapsed } else { 0 }
}

/// When the refresh for a state change seen at `now_ms` starts.
pub open spec fn refresh_start(last_refresh_ms: int, now_ms: int) -> int {
    now_ms + listener_wait(last_refresh_ms, now_ms)
}

/// The state listener's wait after a state change: the time since the end
/// of the last refresh, completed to the minimum interval.
pub fn listener_wait_ms(last_refresh_ms: u64, now_ms: u64) -> (r: u64)
    ensures
        r == listener_wait(last_refresh_ms as int, now_ms as int),
{
    let elapsed: u64 = if now_ms >= last_refresh_ms { now_ms - last_refresh_ms } else { 0 };
    refresh_delay_ms(elapsed)
}

/// Two refreshes of the state listener in a row start at least the minimum
/// interval apart: the second state change is seen after the first refresh
/// ended, and the listener waits out the interval from that end.
pub proof fn law_refreshes_spaced(last_refresh_ms: int, first_change_ms: int, first_done_ms: int, second_change_ms: int)
    requires
        first_done_ms >= refresh_start(last_refresh_ms, first_change_ms),
        second_change_ms >= first_done_ms,
    ensures
        refresh_start(first_done_ms, second_change_ms)
            >= refresh_start(last_refresh_ms, first_change_ms) + MIN_REFRESH_INTERVAL_MS,
        refresh_start(last_refresh_ms, first_change_ms) >= first_change_ms,
{
}

} // verus!
