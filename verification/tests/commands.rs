use wsl_dashboard::cli::{
    handle_context_commands, handle_immediate_commands, help_text, is_silent_mode, version_text, ContextCommand,
    ImmediateCommand,
};
use wsl_dashboard::constants::is_chinese_lang;
use wsl_dashboard::network::models::PortProxyRule;
use wsl_dashboard::scheduler::{
    distros_to_start, is_any_wsl2_running, rules_for_distro, target_distros, DistroInstance,
};

fn args(a: &[&str]) -> Vec<String> {
    a.iter().map(|s| s.to_string()).collect()
}

#[test]
fn immediate_commands() {
    assert!(matches!(handle_immediate_commands(&args(&["app", "-h", "-v"])), Some(ImmediateCommand::Version)));
    assert!(matches!(handle_immediate_commands(&args(&["app", "/?"])), Some(ImmediateCommand::Help)));
    assert!(handle_immediate_commands(&args(&["app", "/silent"])).is_none());
    assert_eq!(version_text("0.3.0"), "v0.3.0");
    let help = help_text("0.3.0");
    assert_eq!(help.len(), 13);
    assert_eq!(help[1], "WSL Dashboard v0.3.0 (https://www.wslui.com)");
    assert_eq!(help[11], "  /help, -h     Show this help message");
}

#[test]
fn context_commands() {
    assert!(matches!(handle_context_commands(&args(&["app", "/clean", "/scheduler", "Ubuntu"])), Some(ContextCommand::Scheduler(2))));
    assert!(matches!(handle_context_commands(&args(&["app", "/clean", "/all"])), Some(ContextCommand::Clean(true))));
    assert!(matches!(handle_context_commands(&args(&["app", "/clean"])), Some(ContextCommand::Clean(false))));
    assert!(matches!(handle_context_commands(&args(&["app", "/initialize"])), Some(ContextCommand::Initialize)));
    assert!(handle_context_commands(&args(&["app"])).is_none());
}

#[test]
fn silent_switch_ignores_case() {
    assert!(is_silent_mode(&args(&["app", "/SILENT"])));
    assert!(!is_silent_mode(&args(&["app", "/silently"])));
}

#[test]
fn chinese_language_codes() {
    assert!(is_chinese_lang("zh-CN"));
    assert!(is_chinese_lang("ZH_tw"));
    assert!(!is_chinese_lang("en-US"));
    assert!(!is_chinese_lang("z"));
}

fn rule(distro: &str, id: &str) -> PortProxyRule {
    PortProxyRule { id: id.into(), distro_name: distro.into(), listen_address: "0.0.0.0".into(), listen_port: 1, target_port: 1, enable_firewall: false }
}

#[test]
fn scheduler_targets() {
    let rules = vec![rule("Ubuntu", "1"), rule("Debian", "2"), rule("Ubuntu", "3")];
    let inst = vec![
        DistroInstance { name: "Arch".into(), auto_startup: true },
        DistroInstance { name: "Kali".into(), auto_startup: false },
        DistroInstance { name: "Ubuntu".into(), auto_startup: true },
    ];
    let usb = vec!["Debian".to_string(), "Fedora".to_string()];
    let explicit = target_distros(&args(&["app", "/scheduler", "Kali"]), 1, &rules, &inst, &usb);
    assert_eq!(explicit, vec!["Kali"]);
    let mut all = target_distros(&args(&["app", "/scheduler", "/x"]), 1, &rules, &inst, &usb);
    all.sort();
    assert_eq!(all, vec!["Arch", "Debian", "Fedora", "Ubuntu"]);
    let started = distros_to_start(&all, &inst);
    assert_eq!(started, vec!["Arch", "Ubuntu"]);
    let ub: Vec<String> = rules_for_distro(&rules, &"Ubuntu".to_string()).into_iter().map(|r| r.id).collect();
    assert_eq!(ub, vec!["1", "3"]);
}

#[test]
fn wsl2_running_detection() {
    let out = "  NAME      STATE           VERSION\n* Ubuntu    Running         2\n  Debian    Stopped         2\n";
    assert!(is_any_wsl2_running(&Some(out.to_string())));
    let v1 = "  NAME      STATE           VERSION\n* Legacy    Running         1\n";
    assert!(!is_any_wsl2_running(&Some(v1.to_string())));
    let header_only = "  Running 2\n";
    assert!(!is_any_wsl2_running(&Some(header_only.to_string())));
    assert!(!is_any_wsl2_running(&None));
}
