use wsl_dashboard::api::client::{
    after_attempt, check_api_response, clean_response_text, http_method, ApiResponse, HttpMethod, RetryStep, WslUiClient,
};
use wsl_dashboard::api::common::{
    wslui_helper_about, wslui_helper_distro, wslui_helper_install, wslui_latest_release, wslui_standard_time,
};
use wsl_dashboard::api::models::{ReleaseData, TimeData};
use wsl_dashboard::time_service::get_standard_time;

#[test]
fn requests_go_to_the_right_host() {
    let c = WslUiClient::new();
    let r = c.request_api1("GET", "/common/v1/utils/time", None);
    assert_eq!(r.url, "https://api1.wslui.com/common/v1/utils/time");
    assert!(matches!(r.method, HttpMethod::Get));
    assert_eq!(r.timeout_secs, 5);
    let r2 = c.request_api2_with_timeout("post", "/common/v1/releases/latest", Some("{}".into()), Some(10));
    assert_eq!(r2.url, "https://api2.wslui.com/common/v1/releases/latest");
    assert!(matches!(r2.method, HttpMethod::Post));
    assert_eq!(r2.timeout_secs, 10);
    assert_eq!(r2.body.as_deref(), Some("{}"));
    let r3 = c.request_api2("GET", "/x", None);
    assert_eq!(r3.url, "https://api2.wslui.com/x");
    let r4 = c.request_api1_with_timeout("PUT", "/y", None, None);
    assert!(matches!(r4.method, HttpMethod::Get));
    assert_eq!(r4.timeout_secs, 5);
}

#[test]
fn method_is_case_insensitive() {
    assert!(matches!(http_method("Post"), HttpMethod::Post));
    assert!(matches!(http_method("GET"), HttpMethod::Get));
    assert!(matches!(http_method("posted"), HttpMethod::Get));
}

#[test]
fn response_text_is_cleaned() {
    assert_eq!(clean_response_text("\u{FEFF}\u{FEFF}  {\"err\":0}\n"), "{\"err\":0}");
    assert_eq!(clean_response_text(" {} "), "{}");
}

#[test]
fn business_errors_are_reported() {
    let bad = ApiResponse { err: -3, msg: "busy".to_string(), data: 1u8 };
    assert_eq!(check_api_response(bad).err().unwrap(), "API business error: err=-3, msg=busy");
    let good = ApiResponse { err: 0, msg: String::new(), data: 7u8 };
    assert_eq!(check_api_response(good).ok().unwrap().data, 7);
}

#[test]
fn failed_request_is_retried_once() {
    assert!(matches!(after_attempt::<u8>(true, Err("x".into())), RetryStep::Retry));
    assert!(matches!(after_attempt::<u8>(false, Err("x".into())), RetryStep::Done(Err(_))));
    assert!(matches!(after_attempt::<u8>(true, Ok(3)), RetryStep::Done(Ok(3))));
}

#[test]
fn fallbacks_when_requests_fail() {
    let r = wslui_latest_release(Err("offline".into()));
    assert_eq!((r.version.as_str(), r.release_date.as_str()), ("10.0.0", "2100-10-10"));
    assert_eq!(r.download_url, "https://github.com/owu/wsl-dashboard");
    let ok = ReleaseData { version: "0.3.1".into(), release_date: "2026-01-01".into(), download_url: "u".into() };
    let resp = ApiResponse { err: 0, msg: String::new(), data: ok };
    assert_eq!(wslui_latest_release(Ok((resp, None))).version, "0.3.1");
    let about = wslui_helper_about(Err("x".into()));
    assert!(about.official_group.is_empty() && about.documents.is_none() && about.discussions.is_none());
    let d = wslui_helper_distro(Err("x".into()));
    assert_eq!(d.vscode_extension.name, "Microsoft WSL(Identifier:ms-vscode-remote.remote-wsl)");
    assert_eq!(d.vscode_extension.url, "https://marketplace.visualstudio.com");
    assert_eq!(d.startup_script.url, "https://docs.wslui.com");
    assert_eq!(d.compress_script.name, "Linux disk cleanup");
    assert!(d.compress_script.url.is_empty());
    assert!(wslui_helper_install(Err("x".into())).rootfs_help.is_empty());
}

#[test]
fn server_time_sources() {
    let with = |t: i64, h: Option<&str>| Ok((ApiResponse { err: 0, msg: String::new(), data: TimeData { unix_time: t } }, h.map(|s| s.to_string())));
    assert_eq!(wslui_standard_time(with(1_700_000_000_000, None)), 1_700_000_000_000);
    assert_eq!(wslui_standard_time(with(0, Some("Tue, 1 Jul 2003 10:52:37 +0200"))), 1_057_049_557_000);
    assert_eq!(wslui_standard_time(with(0, Some("not a date"))), 0);
    assert_eq!(wslui_standard_time(with(-5, None)), 0);
    assert_eq!(wslui_standard_time(Err("offline".into())), 0);
}

#[test]
fn standard_time_falls_back_when_not_positive() {
    assert_eq!(get_standard_time(42), Some(42));
    assert_eq!(get_standard_time(0), None);
    assert_eq!(get_standard_time(-1), None);
}
