//! Start-up checks: when to look for updates and whether the build expired.

use vstd::prelude::*;
use crate::number::{parse_i64_str, parsed_i64};

verus! {

/// Milliseconds in a day.
pub const DAY_MS: i64 = 86400000;

/// The stored time of the last check: the number in the setting, or 0 when
/// it is not a number.
pub fn last_check_time(setting: &str) -> (r: i64)
    ensures
        r == match parsed_i64(setting@) {
            Some(t) => t,
            None => 0,
        },
{
    match parse_i64_str(setting) {
        Some(t) => t,
        None => 0,
    }
}

/// At least `check_update_days` days passed since the last check.
pub fn should_check_update(now_ms: i64, last_check_ms: i64, check_update_days: i64) -> (r: bool)
    ensures
        r == (now_ms - last_check_ms >= check_update_days * DAY_MS),
{
    let days: i128 = check_update_days as i128;
    let day: i128 = DAY_MS as i128;
    assert(-0x8000_0000_0000_0000 * 86400000 <= days * day <= 0x7fff_ffff_ffff_ffff * 86400000) by (nonlinear_arith)
        requires
            -0x8000_0000_0000_0000 <= days <= 0x7fff_ffff_ffff_ffff,
            day == 86400000;
    let interval_ms: i128 = days * day;
    let elapsed: i128 = (now_ms as i128) - (last_check_ms as i128);
    elapsed >= interval_ms
}

/// The build has an expiry time (positive) and `now` is past it.
pub fn is_expired(expire_time: i64, now: i64) -> (r: bool)
    ensures
        r == (expire_time > 0 && now > expire_time),
{
    expire_time > 0 && now > expire_time
}

/// How many times start-up polls for the synchronised timestamp.
pub const TIMESTAMP_POLLS: u32 = 50;

/// What to do while waiting for the synchronised timestamp before the
/// expiry check.
pub enum TimestampStep {
    /// The timestamp is known.
    Ready(i64),
    /// Wait a moment and read it again.
    Poll,
    /// Stop waiting and ask the time service directly.
    FetchNow,
}

/// The next step with the timestamp read so far (`now`, 0 or less when not
/// yet known) after `polls` polls.
pub fn timestamp_step(now: i64, polls: u32) -> (r: TimestampStep)
    ensures
        now > 0 ==> r == TimestampStep::Ready(now),
        now <= 0 && polls < TIMESTAMP_POLLS ==> r is Poll,
        now <= 0 && polls >= TIMESTAMP_POLLS ==> r is FetchNow,
{
    if now > 0 {
        TimestampStep::Ready(now)
    } else if polls < TIMESTAMP_POLLS {
        TimestampStep::Poll
    } else {
        TimestampStep::FetchNow
    }
}

/// What the start-up check does next.
pub enum StartupAction {
    /// Nothing more: silent mode, or the check interval has not passed.
    Stop,
    /// Get the synchronised timestamp (see [`timestamp_step`]), then decide
    /// with [`after_timestamp`].
    AwaitTimestamp,
    /// Ask whether an update exists, then decide with [`after_update_check`].
    CheckForUpdate,
    /// Show the expiry dialog with the latest release and record the check
    /// time; no update check follows.
    ShowExpired,
}

/// The first decision of the start-up check: stop in silent mode or before
/// the interval passed; else check the expiry first when the build has an
/// expiry time, or look for an update.
pub fn startup_first_step(silent: bool, now_ms: i64, last_check_ms: i64, check_update_days: i64, expire_time: i64) -> (r: StartupAction)
    ensures
        silent ==> r is Stop,
        !silent && now_ms - last_check_ms < check_update_days * DAY_MS ==> r is Stop,
        !silent && now_ms - last_check_ms >= check_update_days * DAY_MS && expire_time > 0 ==> r is AwaitTimestamp,
        !silent && now_ms - last_check_ms >= check_update_days * DAY_MS && expire_time <= 0 ==> r is CheckForUpdate,
{
    if silent || !should_check_update(now_ms, last_check_ms, check_update_days) {
        StartupAction::Stop
    } else if expire_time > 0 {
        StartupAction::AwaitTimestamp
    } else {
        StartupAction::CheckForUpdate
    }
}

/// With the timestamp known (`now`): an expired build shows the expiry
/// dialog, else the update check follows.
pub fn after_timestamp(expire_time: i64, now: i64) -> (r: StartupAction)
    ensures
        expire_time > 0 && now > expire_time ==> r is ShowExpired,
        !(expire_time > 0 && now > expire_time) ==> r is CheckForUpdate,
{
    if is_expired(expire_time, now) {
        StartupAction::ShowExpired
    } else {
        StartupAction::CheckForUpdate
    }
}

/// What follows the update check.
pub struct UpdateOutcome {
    /// Show the latest version on the About page.
    pub mark_update: bool,
    /// Show the update dialog.
    pub show_dialog: bool,
    /// Store the current time as the last check time.
    pub record_check_time: bool,
}

/// After the update check (`Some(has_update)`, or `None` when it failed):
/// the dialog is shown and the check time stored only when an update exists.
pub fn after_update_check(result: Option<bool>) -> (r: UpdateOutcome)
    ensures
        r.mark_update == (result == Some(true)),
        r.show_dialog == (result == Some(true)),
        r.record_check_time == (result == Some(true)),
{
    let has_update = match result {
        Some(h) => h,
        None => false,
    };
    UpdateOutcome { mark_update: has_update, show_dialog: has_update, record_check_time: has_update }
}

} // verus!
