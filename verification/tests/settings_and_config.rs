use std::io::Cursor;
use wsl_dashboard::about::{build_pic_url, load_image_pixels, match_group, normalize_lang, AboutFetch, PicHosts};
use wsl_dashboard::api::models::OfficialGroup;
use wsl_dashboard::settings::{
    autostart_script, autostart_setup_command, path_error, schedule_error_text, should_set_default,
    startup_script_check, startup_script_error, was_default, DistroEntry, ScriptCheck, SettingsError,
};
use wsl_dashboard::sparse::{should_retry_sparse, sparse_failure, sparse_needed, sparse_retry_steps, CommandResult, SparseStep};
use wsl_dashboard::startup::{is_expired, last_check_time, should_check_update, timestamp_step, TimestampStep};
use wsl_dashboard::tasks::{refresh_delay_ms, usb_refresh_due, wsl_refresh_due};
use wsl_dashboard::wsl_config::{get_sparse_vhd, get_wsl_networking_mode, load_wsl_config, set_sparse_vhd, wsl_config_text};

#[test]
fn startup_script_checks() {
    assert!(matches!(startup_script_check(false, "/x.sh"), ScriptCheck::Skip));
    assert!(matches!(startup_script_check(true, "   "), ScriptCheck::Skip));
    assert!(matches!(startup_script_check(true, " /etc/init.wsl-dashboard "), ScriptCheck::Forbidden));
    match startup_script_check(true, " /home/u/run.sh\n") {
        ScriptCheck::Inspect(p) => assert_eq!(p, "/home/u/run.sh"),
        _ => panic!("expected a path to inspect"),
    }
    let inspect = ScriptCheck::Inspect("/a".into());
    assert!(matches!(startup_script_error(&inspect, false, false), Some(SettingsError::ScriptNotFound)));
    assert!(matches!(startup_script_error(&inspect, true, false), Some(SettingsError::ScriptNotExecutable)));
    assert!(startup_script_error(&inspect, true, true).is_none());
    assert!(matches!(startup_script_error(&ScriptCheck::Forbidden, true, true), Some(SettingsError::StartupScriptForbidden)));
    assert!(matches!(path_error(false), Some(SettingsError::PathNotFound)));
    assert!(path_error(true).is_none());
    assert_eq!(SettingsError::ScriptNotExecutable.message_key(), "dialog.script_not_executable");
    assert_eq!(SettingsError::PathNotFound.message_key(), "dialog.path_not_found");
}

#[test]
fn default_distro_choice() {
    let list = vec![DistroEntry { name: "Ubuntu".into(), is_default: true }, DistroEntry { name: "Debian".into(), is_default: false }];
    assert!(was_default(&list, "Ubuntu"));
    assert!(!was_default(&list, "Debian"));
    assert!(should_set_default(true, false));
    assert!(!should_set_default(true, true));
}

#[test]
fn autostart_script_text() {
    assert_eq!(
        autostart_script("  /home/u/run.sh "),
        "#! /bin/sh\\n\\n# Execute user script in background\\n( /home/u/run.sh ) > /dev/null 2>&1 &\\n\\n# WSL Dashboard Keep-alive\\nexec sleep infinity\\n"
    );
    assert_eq!(autostart_script(""), "#! /bin/sh\\n\\n# WSL Dashboard Keep-alive\\nexec sleep infinity\\n");
    assert_eq!(
        autostart_setup_command("X"),
        "printf 'X' > /etc/init.wsl-dashboard && chmod +x /etc/init.wsl-dashboard"
    );
    assert_eq!(schedule_error_text("Access denied"), "Operation denied (UAC)");
    assert_eq!(schedule_error_text("boom"), "Failed to schedule: boom");
}

#[test]
fn sparse_retries() {
    assert!(sparse_needed(false, true));
    assert!(!sparse_needed(false, false));
    let busy = CommandResult { success: false, output: "Error: ERROR_SHARING_VIOLATION".into(), error: None };
    assert!(should_retry_sparse(&busy, 4));
    assert!(!should_retry_sparse(&busy, 5));
    let busy2 = CommandResult { success: false, output: String::new(), error: Some("code 0x80070020".into()) };
    assert!(should_retry_sparse(&busy2, 0));
    let other = CommandResult { success: false, output: "nope".into(), error: None };
    assert!(!should_retry_sparse(&other, 0));
    assert_eq!(sparse_failure(&other).as_deref(), Some("Unknown error"));
    assert_eq!(sparse_failure(&busy2).as_deref(), Some("code 0x80070020"));
    assert!(sparse_failure(&CommandResult { success: true, output: String::new(), error: None }).is_none());
    assert_eq!(sparse_retry_steps(0).len(), 4);
    let late = sparse_retry_steps(2);
    assert_eq!(late.len(), 6);
    assert!(matches!(late[2], SparseStep::Shutdown));
    assert!(matches!(late[5], SparseStep::SetSparse));
}

#[test]
fn update_check_timing() {
    assert_eq!(last_check_time("1700000000000"), 1_700_000_000_000);
    assert_eq!(last_check_time(""), 0);
    assert!(should_check_update(2 * 86_400_000, 0, 2));
    assert!(!should_check_update(2 * 86_400_000 - 1, 0, 2));
    assert!(is_expired(10, 11));
    assert!(!is_expired(0, 11));
    assert!(!is_expired(10, 10));
}

#[test]
fn background_refreshes() {
    assert!(wsl_refresh_due(0) && !wsl_refresh_due(2));
    assert!(usb_refresh_due(2) && !usb_refresh_due(0));
    assert_eq!(refresh_delay_ms(300), 700);
    assert_eq!(refresh_delay_ms(1500), 0);
}

fn group(lang: &str, tz: &str, name: &str) -> OfficialGroup {
    OfficialGroup { system_language: lang.into(), timezone: tz.into(), name: name.into(), pic: String::new() }
}

#[test]
fn group_matching() {
    assert_eq!(normalize_lang("zh-CN"), "zhcn");
    assert_eq!(normalize_lang("ZH_cn"), "zhcn");
    let items = vec![group("", "", "general"), group("zh_CN", "Asia/Shanghai", "cn"), group("en", "", "half")];
    assert_eq!(match_group(&items, "zh-cn", "asia/shanghai").unwrap().name, "cn");
    assert_eq!(match_group(&items, "en", "").unwrap().name, "general");
    assert!(match_group(&items[1..].to_vec(), "fr", "Europe/Paris").is_none());
}

#[test]
fn picture_addresses() {
    let hosts = PicHosts { zh_timezone: "Asia/Shanghai".into(), zh_base: "https://cn.example".into(), default_base: "https://intl.example".into() };
    assert_eq!(build_pic_url("https://x/y.png", "UTC", 5, &hosts), "https://x/y.png");
    assert_eq!(build_pic_url("/g.png", "Asia/Shanghai", 17, &hosts), "https://cn.example/g.png?t=17");
    assert_eq!(build_pic_url("/g.png?v=2", "UTC", 0, &hosts), "https://intl.example/g.png?v=2&t=0");
}

#[test]
fn about_fetch_happens_once() {
    let mut f = AboutFetch::new();
    assert!(f.trigger_fetch_if_needed());
    assert!(!f.trigger_fetch_if_needed());
    assert!(!f.trigger_fetch_if_needed());
}

#[test]
fn picture_decoding() {
    let mut img = image::RgbaImage::new(2, 1);
    img.put_pixel(0, 0, image::Rgba([1, 2, 3, 255]));
    img.put_pixel(1, 0, image::Rgba([9, 8, 7, 6]));
    let mut png = Vec::new();
    img.write_to(&mut Cursor::new(&mut png), image::ImageFormat::Png).unwrap();
    let (px, w, h) = load_image_pixels(&png).unwrap();
    assert_eq!((w, h), (2, 1));
    assert_eq!(px, vec![1, 2, 3, 255, 9, 8, 7, 6]);
    assert!(load_image_pixels(&vec![1, 2, 3]).is_err());
}

#[test]
fn networking_mode_from_config() {
    assert_eq!(get_wsl_networking_mode(None), "nat");
    assert_eq!(get_wsl_networking_mode(Some("[wsl2]\nnetworkingMode=Mirrored\n")), "mirrored");
    assert_eq!(get_wsl_networking_mode(Some("\u{FEFF}[wsl2]\nnetworkingMode=NAT\n")), "nat");
    assert_eq!(get_wsl_networking_mode(Some("[wsl2]\nmemory=4GB\n")), "nat");
    assert_eq!(get_wsl_networking_mode(Some("[experimental]\nnetworkingMode=mirrored\n")), "nat");
}

#[test]
fn sparse_setting_write_then_read() {
    assert!(!get_sparse_vhd(None));
    assert!(get_sparse_vhd(Some("[experimental]\nsparseVhd=True\n")));
    let mut ini = load_wsl_config(Some("[wsl2]\nmemory=4GB\n"));
    set_sparse_vhd(&mut ini, true);
    let text = wsl_config_text(&ini);
    assert!(get_sparse_vhd(Some(text.as_str())));
    assert!(text.contains("memory=4GB"));
    let mut ini2 = load_wsl_config(Some(text.as_str()));
    set_sparse_vhd(&mut ini2, false);
    assert!(!get_sparse_vhd(Some(wsl_config_text(&ini2).as_str())));
}

#[test]
fn config_text_as_written() {
    let mut ini = load_wsl_config(Some("[wsl2]\nmemory=4GB\n"));
    set_sparse_vhd(&mut ini, true);
    let text = wsl_config_text(&ini);
    let unix = "[wsl2]\nmemory=4GB\n\n[experimental]\nsparseVhd=true\n";
    let windows = "[wsl2]\r\nmemory=4GB\r\n\r\n[experimental]\r\nsparseVhd=true\r\n";
    assert!(text == unix || text == windows);
    assert_eq!(wsl_config_text(&load_wsl_config(None)), "");
}

#[test]
fn timestamp_wait_steps() {
    assert!(matches!(timestamp_step(5, 0), TimestampStep::Ready(5)));
    assert!(matches!(timestamp_step(0, 49), TimestampStep::Poll));
    assert!(matches!(timestamp_step(-1, 50), TimestampStep::FetchNow));
}
