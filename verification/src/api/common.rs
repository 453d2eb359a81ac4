//! What the application takes from each API answer, with fallbacks when a
//! request failed.

use vstd::prelude::*;
use crate::api::client::ApiResponse;
use crate::api::models::{HelperAboutData, HelperDistroData, HelperInstallData, ReleaseData, TimeData};

verus! {

/// The outcome of an API request: the checked answer and the `Date` header,
/// or the error text.
pub type ApiOutcome<T> = Result<(ApiResponse<T>, Option<String>), String>;

/// The latest release, or the placeholder release when the request failed.
pub fn wslui_latest_release(outcome: ApiOutcome<ReleaseData>) -> (r: ReleaseData)
    ensures
        outcome matches Ok((resp, _)) ==> r == resp.data,
        outcome is Err ==> r.version@ == "10.0.0"@ && r.release_date@ == "2100-10-10"@
            && r.download_url@ == crate::constants::PROJECT_REPOSITORY@,
{
    match outcome {
        Ok((resp, _)) => resp.data,
        Err(_) => ReleaseData::default(),
    }
}

/// The About page's data, or empty data when the request failed.
pub fn wslui_helper_about(outcome: ApiOutcome<HelperAboutData>) -> (r: HelperAboutData)
    ensures
        outcome matches Ok((resp, _)) ==> r == resp.data,
        outcome is Err ==> r.official_group@.len() == 0 && r.documents is None && r.discussions is None,
{
    match outcome {
        Ok((resp, _)) => resp.data,
        Err(_) => HelperAboutData::default(),
    }
}

/// The distribution help data, or the built-in defaults when the request failed.
pub fn wslui_helper_distro(outcome: ApiOutcome<HelperDistroData>) -> (r: HelperDistroData)
    ensures
        outcome matches Ok((resp, _)) ==> r == resp.data,
        outcome is Err ==> r.vscode_extension.name@ == "Microsoft WSL(Identifier:ms-vscode-remote.remote-wsl)"@
            && r.vscode_extension.url@ == crate::constants::VSCODE_MARKETPLACE_URL@
            && r.startup_script.name@ == "Distro startup script"@
            && r.startup_script.url@ == crate::constants::PROJECT_DOCS@
            && r.compress_script.name@ == "Linux disk cleanup"@ && r.compress_script.url@.len() == 0,
{
    match outcome {
        Ok((resp, _)) => resp.data,
        Err(_) => HelperDistroData::default(),
    }
}

/// The install help data, or empty data when the request failed.
pub fn wslui_helper_install(outcome: ApiOutcome<HelperInstallData>) -> (r: HelperInstallData)
    ensures
        outcome matches Ok((resp, _)) ==> r == resp.data,
        outcome is Err ==> r.rootfs_help@.len() == 0,
{
    match outcome {
        Ok((resp, _)) => resp.data,
        Err(_) => HelperInstallData::default(),
    }
}

/// What `chrono::DateTime::parse_from_rfc2822` followed by `timestamp_millis`
/// gives for a text: the instant in milliseconds since the Unix epoch, or
/// nothing when the text is not an RFC 2822 date.
pub uninterp spec fn rfc2822_millis(text: Seq<char>) -> Option<i64>;

/// `chrono::DateTime::parse_from_rfc2822(text)` and then `timestamp_millis` on
/// the parsed date. Claimed: the result depends on the text alone and is
/// named by [`rfc2822_millis`]; which texts parse, and to what instant, is
/// not stated.
#[verifier::external_body]
fn parse_rfc2822_millis(text: &str) -> (r: Option<i64>)
    ensures
        r == rfc2822_millis(text@),
{
    match chrono::DateTime::parse_from_rfc2822(text) {
        Ok(dt) => Some(dt.timestamp_millis()),
        Err(_) => None,
    }
}

/// The server time in milliseconds: the answer's `unix_time` when positive,
/// else the `Date` header read as an RFC 2822 date, else 0 (also when the
/// request failed).
pub open spec fn server_time(outcome: ApiOutcome<TimeData>) -> i64 {
    match outcome {
        Ok((resp, header)) => if resp.data.unix_time > 0 {
            resp.data.unix_time
        } else {
            match header {
                Some(h) => match rfc2822_millis(h@) {
                    Some(ms) => ms,
                    None => 0,
                },
                None => 0,
            }
        },
        Err(_) => 0,
    }
}

/// The server time in milliseconds from the time request's outcome.
pub fn wslui_standard_time(outcome: ApiOutcome<TimeData>) -> (r: i64)
    ensures
        r == server_time(outcome),
{
    match outcome {
        Ok((resp, header)) => {
            if resp.data.unix_time > 0 {
                return resp.data.unix_time;
            }
            match header {
                Some(h) => match parse_rfc2822_millis(h.as_str()) {
                    Some(ms) => ms,
                    None => 0,
                },
                None => 0,
            }
        },
        Err(_) => 0,
    }
}

} // verus!
