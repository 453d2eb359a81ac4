use std::io::Cursor;
use wsl_dashboard::about::load_image_pixels;
use wsl_dashboard::api::client::clean_response_text;
use wsl_dashboard::network::models::{HttpProxyConfig, NetworkConfig, PortProxyRule};
use wsl_dashboard::compress::space_sufficient;
use wsl_dashboard::network::rules::{
    add_network_rule, apply_all_batch, cancel_all_batch, delete_network_rule, select_rules, AddRuleOutcome, ApplyProbe,
};
use wsl_dashboard::scheduler::{scheduler_plan, DistroInstance};
use wsl_dashboard::settings::{review_settings, save_plan, ScriptCheck, SettingsError};
use wsl_dashboard::sparse::{sparse_after_attempt, sparse_first_command, CommandResult, SparseDecision, WslStep};
use wsl_dashboard::startup::{after_timestamp, after_update_check, should_check_update, startup_first_step, StartupAction, DAY_MS};
use wsl_dashboard::tasks::listener_wait_ms;
use wsl_dashboard::wsl_config::networking_mode_label;

fn args(a: &[&str]) -> Vec<String> {
    a.iter().map(|s| s.to_string()).collect()
}

fn rule(id: &str, distro: &str, addr: &str, lport: u16, tport: u16) -> PortProxyRule {
    PortProxyRule {
        id: id.to_string(),
        distro_name: distro.to_string(),
        listen_address: addr.to_string(),
        listen_port: lport,
        target_port: tport,
        enable_firewall: false,
    }
}

fn endpoints_unique_and_ports_positive(rules: &[PortProxyRule]) -> bool {
    rules.iter().all(|r| r.listen_port > 0 && r.target_port > 0)
        && rules.iter().enumerate().all(|(i, a)| {
            rules.iter().enumerate().all(|(j, b)| i == j || a.listen_address != b.listen_address || a.listen_port != b.listen_port)
        })
}

#[test]
fn networking_mode_shown_upper_case() {
    assert_eq!(networking_mode_label(None), "NAT");
    assert_eq!(networking_mode_label(Some("[wsl2]\nnetworkingMode=Mirrored\n")), "MIRRORED");
    assert_eq!(networking_mode_label(Some("[wsl2]\nmemory=4GB\n")), "NAT");
}

#[test]
fn decoded_pixels_four_bytes_each() {
    let img = image::RgbaImage::new(3, 2);
    let mut png = Vec::new();
    img.write_to(&mut Cursor::new(&mut png), image::ImageFormat::Png).unwrap();
    let (px, w, h) = load_image_pixels(&png).unwrap();
    assert_eq!((w, h), (3, 2));
    assert_eq!(px.len(), 4 * 3 * 2);
}

#[test]
fn rule_edits_keep_rules_consistent() {
    let mut c = NetworkConfig {
        port_proxies: vec![rule("1", "Ubuntu", "0.0.0.0", 8080, 80), rule("2", "Ubuntu", "0.0.0.0", 8443, 443)],
        proxy: HttpProxyConfig::default(),
    };
    assert!(matches!(add_network_rule(&mut c, "Debian", "0.0.0.0", "8080", "81", false, "3"), AddRuleOutcome::Duplicate));
    assert!(matches!(add_network_rule(&mut c, "Debian", "0.0.0.0", "9000", "0", false, "4"), AddRuleOutcome::Ignored));
    assert!(matches!(add_network_rule(&mut c, "Debian", "127.0.0.1", "8080", "81", false, "5"), AddRuleOutcome::Added));
    assert!(endpoints_unique_and_ports_positive(&c.port_proxies));
    assert!(delete_network_rule(&mut c, "1").is_some());
    assert_eq!(c.port_proxies.len(), 2);
    assert!(endpoints_unique_and_ports_positive(&c.port_proxies));
}

#[test]
fn cleaning_ignores_marks_and_space() {
    let body = "{\"err\":0}";
    assert_eq!(clean_response_text(body), body);
    assert_eq!(clean_response_text("\u{FEFF}\u{FEFF} \t{\"err\":0}\r\n "), body);
    assert_eq!(clean_response_text("\u{FEFF}  "), "");
}

#[test]
fn listener_waits_out_the_interval() {
    assert_eq!(listener_wait_ms(10_000, 10_300), 700);
    assert_eq!(listener_wait_ms(10_000, 12_000), 0);
    assert_eq!(listener_wait_ms(10_000, 9_000), 1000);
    let first_start = 10_300 + listener_wait_ms(10_000, 10_300);
    let first_done = first_start + 50;
    let second_start = first_done + listener_wait_ms(first_done, first_done + 10);
    assert!(second_start >= first_start + 1000);
}

#[test]
fn scheduler_plan_skips_distros_without_rules() {
    let rules = vec![rule("1", "Ubuntu", "0.0.0.0", 80, 80), rule("2", "Debian", "0.0.0.0", 81, 81), rule("3", "Ubuntu", "0.0.0.0", 82, 82)];
    let inst = vec![
        DistroInstance { name: "Arch".into(), auto_startup: true },
        DistroInstance { name: "Ubuntu".into(), auto_startup: false },
    ];
    let usb = args(&["Kali"]);
    let plan = scheduler_plan(&args(&["app", "/scheduler"]), 1, &rules, &inst, &usb);
    assert_eq!(plan.targets, args(&["Ubuntu", "Debian", "Arch", "Kali"]));
    assert_eq!(plan.start, args(&["Arch"]));
    assert!(plan.wait_for_network);
    assert_eq!(plan.sync.len(), 2);
    assert_eq!(plan.sync[0].distro, "Ubuntu");
    assert_eq!(plan.sync[0].rules.iter().map(|r| r.id.clone()).collect::<Vec<_>>(), args(&["1", "3"]));
    assert_eq!(plan.sync[1].distro, "Debian");
    assert!(plan.attach_usb);

    let plan = scheduler_plan(&args(&["app", "/scheduler", "Ubuntu"]), 1, &rules, &inst, &Vec::new());
    assert_eq!(plan.targets, args(&["Ubuntu"]));
    assert!(plan.start.is_empty());
    assert!(!plan.wait_for_network);
    assert_eq!(plan.sync.len(), 1);
    assert!(!plan.attach_usb);
}

#[test]
fn startup_check_sequence() {
    assert!(matches!(startup_first_step(true, 10 * DAY_MS, 0, 1, 0), StartupAction::Stop));
    assert!(matches!(startup_first_step(false, DAY_MS - 1, 0, 1, 0), StartupAction::Stop));
    assert!(matches!(startup_first_step(false, DAY_MS, 0, 1, 0), StartupAction::CheckForUpdate));
    assert!(matches!(startup_first_step(false, DAY_MS, 0, 1, 500), StartupAction::AwaitTimestamp));
    assert!(matches!(after_timestamp(500, 501), StartupAction::ShowExpired));
    assert!(matches!(after_timestamp(500, 500), StartupAction::CheckForUpdate));
    let found = after_update_check(Some(true));
    assert!(found.mark_update && found.show_dialog && found.record_check_time);
    let none = after_update_check(Some(false));
    assert!(!none.mark_update && !none.show_dialog && !none.record_check_time);
    let failed = after_update_check(None);
    assert!(!failed.show_dialog && !failed.record_check_time);
}

#[test]
fn failed_review_stops_the_save() {
    let review = review_settings(false, true, &ScriptCheck::Inspect("/x.sh".into()), true, false);
    assert!(matches!(review.terminal_dir_error, Some(SettingsError::PathNotFound)));
    assert!(review.vscode_dir_error.is_none());
    assert!(matches!(review.startup_script_error, Some(SettingsError::ScriptNotExecutable)));
    assert!(!review.passed);
    let plan = save_plan(true, review.passed, true, false, true, "/x.sh");
    assert!(!plan.save && !plan.set_default && plan.autostart_command.is_none());

    let ok = review_settings(true, true, &ScriptCheck::Skip, false, false);
    assert!(ok.passed);
    let plan = save_plan(true, ok.passed, true, true, false, "");
    assert!(plan.save && !plan.set_default && plan.autostart_command.is_none());
    let plan = save_plan(false, false, true, false, true, "");
    assert!(plan.save && plan.set_default);
    assert_eq!(
        plan.autostart_command.unwrap(),
        "printf '#! /bin/sh\\n\\n# WSL Dashboard Keep-alive\\nexec sleep infinity\\n' > /etc/init.wsl-dashboard && chmod +x /etc/init.wsl-dashboard"
    );
}

#[test]
fn sparse_routine_commands() {
    assert!(sparse_first_command("Ubuntu", false, false).is_none());
    assert_eq!(
        sparse_first_command("Ubuntu", false, true).unwrap(),
        args(&["--manage", "Ubuntu", "--set-sparse", "true", "--allow-unsafe"])
    );
    let busy = CommandResult { success: false, output: "ERROR_SHARING_VIOLATION".into(), error: None };
    match sparse_after_attempt("Ubuntu", &busy, 2) {
        SparseDecision::Retry(steps) => {
            assert_eq!(steps.len(), 6);
            assert!(matches!(steps[0], WslStep::Pause(3)));
            assert!(matches!(&steps[1], WslStep::Run(a) if *a == args(&["--terminate", "Ubuntu"])));
            assert!(matches!(&steps[2], WslStep::Run(a) if *a == args(&["--shutdown"])));
            assert!(matches!(steps[3], WslStep::Pause(2)));
            assert!(matches!(steps[4], WslStep::Pause(1)));
            assert!(matches!(&steps[5], WslStep::Run(a) if *a == args(&["--manage", "Ubuntu", "--set-sparse", "true", "--allow-unsafe"])));
        },
        SparseDecision::Done(_) => panic!("a sharing violation is retried"),
    }
    assert!(matches!(sparse_after_attempt("Ubuntu", &busy, 5), SparseDecision::Done(Some(ref e)) if e == "Unknown error"));
    let ok = CommandResult { success: true, output: String::new(), error: None };
    assert!(matches!(sparse_after_attempt("Ubuntu", &ok, 0), SparseDecision::Done(None)));
}

#[test]
fn apply_all_pairs_running_rules_with_found_addresses() {
    let rules = vec![
        rule("1", "Ubuntu", "0.0.0.0", 8080, 80),
        rule("2", "Debian", "0.0.0.0", 8081, 81),
        rule("3", "Arch", "0.0.0.0", 8082, 82),
        rule("4", "Kali", "0.0.0.0", 8083, 83),
    ];
    let active = vec![("0.0.0.0".to_string(), 8083u16)];
    let inactive = select_rules(&rules, &active, false);
    assert_eq!(inactive.len(), 3);
    let probes = vec![
        ApplyProbe { running: true, address: Some("172.20.0.2".into()) },
        ApplyProbe { running: false, address: None },
        ApplyProbe { running: true, address: None },
    ];
    let batch = apply_all_batch(&inactive, &probes).unwrap();
    assert_eq!(batch.len(), 1);
    assert_eq!(batch[0].0.id, "1");
    assert_eq!(batch[0].1, "172.20.0.2");
    let none: Vec<ApplyProbe> = Vec::new();
    assert!(apply_all_batch(&Vec::new(), &none).is_none());
    let stopped = vec![
        ApplyProbe { running: false, address: None },
        ApplyProbe { running: false, address: None },
        ApplyProbe { running: true, address: None },
    ];
    assert!(apply_all_batch(&inactive, &stopped).is_none());
    let cancel = cancel_all_batch(&rules, &active).unwrap();
    assert_eq!(cancel.len(), 1);
    assert_eq!(cancel[0].id, "4");
    assert!(cancel_all_batch(&rules, &Vec::new()).is_none());
}

#[test]
fn free_space_for_backup() {
    let gib: u64 = 1024 * 1024 * 1024;
    assert!(space_sufficient(12 * gib + 1, 10 * gib));
    assert!(!space_sufficient(12 * gib, 10 * gib));
    assert!(!space_sufficient(u64::MAX, u64::MAX));
}

#[test]
fn update_interval_far_apart_times() {
    assert!(should_check_update(i64::MAX, i64::MIN, 1));
    assert!(!should_check_update(i64::MIN, i64::MAX, 0));
    assert!(should_check_update(0, 0, i64::MIN));
    assert!(!should_check_update(0, 0, i64::MAX));
}
