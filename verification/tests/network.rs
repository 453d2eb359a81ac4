use wsl_dashboard::network::firewall::{get_add_rule_cmd_netsh, get_delete_rule_cmd_netsh};
use wsl_dashboard::network::models::{
    default_host, default_no_proxy, default_port, HttpProxyConfig, NetworkConfig, NetworkInterface, PortProxyRule,
};
use wsl_dashboard::network::rules::{
    add_network_rule, delete_network_rule, new_rule_id, elevation_refused, find_rule, instant_apply, is_duplicate_rule,
    select_rules, AddRuleOutcome, InstantApply,
};
use wsl_dashboard::network::scanner::{get_physical_interfaces, is_virtual_name, RawInterface};
use wsl_dashboard::network::tracker::{
    is_distro_running, pick_hostname_ip, pick_ip_addr_ip, CommandOutcome, IpProbe, ProbeAction,
};
use wsl_dashboard::network::view::{local_ip_choices, no_proxy_text, rule_views};

fn rule(id: &str, distro: &str, addr: &str, lport: u16, tport: u16) -> PortProxyRule {
    PortProxyRule {
        id: id.to_string(),
        distro_name: distro.to_string(),
        listen_address: addr.to_string(),
        listen_port: lport,
        target_port: tport,
        enable_firewall: false,
    }
}

fn config(rules: Vec<PortProxyRule>) -> NetworkConfig {
    NetworkConfig { port_proxies: rules, proxy: HttpProxyConfig::default() }
}

#[test]
fn netsh_add_rule_commands() {
    assert_eq!(
        get_add_rule_cmd_netsh("WSL 8080", 8080, "0.0.0.0"),
        "netsh advfirewall firewall add rule name=\"WSL 8080\" dir=in action=allow protocol=TCP localport=8080 localip=any"
    );
    assert_eq!(
        get_add_rule_cmd_netsh("r", 22, ""),
        "netsh advfirewall firewall add rule name=\"r\" dir=in action=allow protocol=TCP localport=22 localip=any"
    );
    assert_eq!(
        get_add_rule_cmd_netsh("r", 22, "192.168.1.10"),
        "netsh advfirewall firewall add rule name=\"r\" dir=in action=allow protocol=TCP localport=22 localip=192.168.1.10"
    );
}

#[test]
fn netsh_delete_rule_command() {
    assert_eq!(get_delete_rule_cmd_netsh("WSL 8080"), "netsh advfirewall firewall delete rule name=\"WSL 8080\"");
}

#[test]
fn proxy_defaults() {
    assert_eq!(default_no_proxy(), "localhost,127.0.0.1,.example.com");
    assert_eq!(default_host(), "e.g. 192.168.1.10");
    assert_eq!(default_port(), "e.g. 10808");
    let p = HttpProxyConfig::default();
    assert!(!p.is_enabled && !p.auth_enabled && p.host.is_empty() && p.no_proxy.is_empty());
    assert_eq!(no_proxy_text(&p), "localhost,127.0.0.1,.example.com");
    let q = HttpProxyConfig { no_proxy: "localhost".to_string(), ..HttpProxyConfig::default() };
    assert_eq!(no_proxy_text(&q), "localhost");
}

#[test]
fn add_rule_appends_and_refuses_duplicates() {
    let mut c = config(vec![rule("1", "Ubuntu", "0.0.0.0", 22, 22)]);
    let out = add_network_rule(&mut c, "Debian", "0.0.0.0", "8080", "+80", true, "2");
    assert!(matches!(out, AddRuleOutcome::Added));
    assert_eq!(c.port_proxies.len(), 2);
    let r = &c.port_proxies[1];
    assert_eq!((r.id.as_str(), r.distro_name.as_str(), r.listen_address.as_str()), ("2", "Debian", "0.0.0.0"));
    assert_eq!((r.listen_port, r.target_port, r.enable_firewall), (8080, 80, true));
    // The same address and port again is a duplicate; nothing changes.
    let again = add_network_rule(&mut c, "Arch", "0.0.0.0", "8080", "81", false, "3");
    assert!(matches!(again, AddRuleOutcome::Duplicate));
    assert_eq!(c.port_proxies.len(), 2);
    assert!(is_duplicate_rule(&c.port_proxies, "0.0.0.0", 8080));
    assert!(!is_duplicate_rule(&c.port_proxies, "127.0.0.1", 8080));
}

#[test]
fn add_rule_ignores_bad_ports() {
    let mut c = config(vec![]);
    assert!(matches!(add_network_rule(&mut c, "U", "0.0.0.0", "abc", "80", false, "1"), AddRuleOutcome::Ignored));
    assert!(matches!(add_network_rule(&mut c, "U", "0.0.0.0", "80", "70000", false, "1"), AddRuleOutcome::Ignored));
    assert!(matches!(add_network_rule(&mut c, "U", "0.0.0.0", "0", "80", false, "1"), AddRuleOutcome::Ignored));
    assert!(c.port_proxies.is_empty());
}

#[test]
fn delete_removes_every_rule_with_the_id() {
    let mut c = config(vec![rule("a", "U", "0.0.0.0", 1, 1), rule("b", "D", "0.0.0.0", 2, 2), rule("a", "X", "1.1.1.1", 3, 3)]);
    let found = delete_network_rule(&mut c, "a").unwrap();
    assert_eq!(found.distro_name, "U");
    assert_eq!(c.port_proxies.len(), 1);
    assert_eq!(c.port_proxies[0].id, "b");
    assert!(find_rule(&c.port_proxies, "a").is_none());
    assert!(delete_network_rule(&mut c, "zzz").is_none());
    assert_eq!(c.port_proxies.len(), 1);
}

#[test]
fn apply_and_cancel_split_rules() {
    let rules = vec![rule("a", "U", "0.0.0.0", 80, 80), rule("b", "U", "0.0.0.0", 81, 81), rule("c", "U", "1.2.3.4", 80, 80)];
    let active = vec![("0.0.0.0".to_string(), 80u16)];
    let on: Vec<String> = select_rules(&rules, &active, true).into_iter().map(|r| r.id).collect();
    let off: Vec<String> = select_rules(&rules, &active, false).into_iter().map(|r| r.id).collect();
    assert_eq!(on, vec!["a"]);
    assert_eq!(off, vec!["b", "c"]);
}

#[test]
fn elevation_refusal_detection_and_instant_apply() {
    assert!(elevation_refused("System.InvalidOperationException"));
    assert!(elevation_refused("Access is denied"));
    assert!(!elevation_refused("timeout"));
    assert!(matches!(instant_apply(true, false), InstantApply::ProxyAndFirewall));
    assert!(matches!(instant_apply(false, true), InstantApply::FirewallOnly));
    assert!(matches!(instant_apply(false, false), InstantApply::Nothing));
}

#[test]
fn interfaces_keep_ipv4_and_mark_virtual_names() {
    let raw = vec![
        RawInterface { name: "Ethernet".into(), ip_address: "192.168.1.5".into(), is_loopback: false, is_ipv4: true },
        RawInterface { name: "Ethernet".into(), ip_address: "fe80::1".into(), is_loopback: false, is_ipv4: false },
        RawInterface { name: "vEthernet (WSL)".into(), ip_address: "172.20.0.1".into(), is_loopback: false, is_ipv4: true },
        RawInterface { name: "Loopback".into(), ip_address: "127.0.0.1".into(), is_loopback: true, is_ipv4: true },
    ];
    let list = get_physical_interfaces(raw);
    assert_eq!(list.len(), 3);
    assert!(!list[0].is_virtual);
    assert!(list[1].is_virtual);
    assert!(list[2].is_loopback);
    assert!(is_virtual_name("tailscale0"));
    assert!(!is_virtual_name("Wi-Fi"));
}

#[test]
fn listen_address_choices() {
    let iface = |ip: &str, lo: bool, virt: bool| NetworkInterface { name: "n".into(), ip_address: ip.into(), is_loopback: lo, is_virtual: virt };
    let list = vec![
        iface("172.20.0.1", false, false),
        iface("172.20.5.9", false, false),
        iface("192.168.1.5", false, false),
        iface("10.0.0.1", false, true),
        iface("127.0.0.1", true, false),
    ];
    assert_eq!(local_ip_choices(&list), vec!["0.0.0.0", "192.168.1.5", "172.20.5.9"]);
}

#[test]
fn rule_list_shows_ports_and_state() {
    let rules = vec![rule("a", "U", "0.0.0.0", 8080, 80)];
    let views = rule_views(&rules, &vec![("0.0.0.0".to_string(), 8080)]);
    assert_eq!(views[0].listen_port, "8080");
    assert_eq!(views[0].target_port, "80");
    assert!(views[0].is_active);
    assert!(!rule_views(&rules, &vec![])[0].is_active);
}

#[test]
fn hostname_output_prefers_bridge_address() {
    assert_eq!(pick_hostname_ip("10.0.0.5 172.28.1.2 \n").as_deref(), Some("172.28.1.2"));
    assert_eq!(pick_hostname_ip("10.0.0.5 192.168.0.2").as_deref(), Some("10.0.0.5"));
    assert_eq!(pick_hostname_ip("  \n"), None);
}

#[test]
fn ip_addr_output_skips_loopback() {
    let out = "1: lo: <LOOPBACK>\n    inet 127.0.0.1/8 scope host lo\n2: eth0: <UP>\n    inet 172.28.1.2/20 brd 172.28.15.255 scope global eth0\n";
    assert_eq!(pick_ip_addr_ip(out).as_deref(), Some("172.28.1.2"));
    assert_eq!(pick_ip_addr_ip("    inet 127.0.0.1/8 scope host lo\n"), None);
    assert_eq!(pick_ip_addr_ip("inet6 ::1/128"), None);
}

#[test]
fn running_distro_listing() {
    let ok = CommandOutcome::Succeeded("Ubuntu\r\n  debian  \n".to_string());
    assert!(is_distro_running(&ok, "ubuntu"));
    assert!(is_distro_running(&ok, "Debian"));
    assert!(!is_distro_running(&ok, "Arch"));
    assert!(!is_distro_running(&CommandOutcome::Failed("Ubuntu".into()), "Ubuntu"));
}

#[test]
fn probe_finds_address_from_hostname() {
    let (mut p, first) = IpProbe::start("Ubuntu");
    assert!(matches!(first, ProbeAction::RunHostname));
    match p.after_hostname(&CommandOutcome::Succeeded("172.28.1.2\n".into())) {
        ProbeAction::Found(ip) => assert_eq!(ip, "172.28.1.2"),
        _ => panic!("expected an address"),
    }
}

#[test]
fn probe_gives_up_after_thirty_rounds() {
    let (mut p, _) = IpProbe::start("Ubuntu");
    let mut rounds = 1;
    loop {
        let a = p.after_hostname(&CommandOutcome::Succeeded("   ".into()));
        assert!(matches!(a, ProbeAction::RunIpAddr));
        match p.after_ip_addr(&CommandOutcome::Failed("  boom \n".into())) {
            ProbeAction::WaitThenRunHostname => rounds += 1,
            ProbeAction::GiveUp(msg) => {
                assert_eq!(msg, "Could not find IPv4 address for Ubuntu after 10 attempts. Last error: ip addr fallback failed: boom");
                break;
            }
            _ => panic!("unexpected action"),
        }
    }
    assert_eq!(rounds, 30);
}

#[test]
fn probe_records_command_errors() {
    let (mut p, _) = IpProbe::start("U");
    p.after_hostname(&CommandOutcome::Failed(" no such distro\n".into()));
    assert_eq!(p.last_error, "wsl command exited with error: no such distro");
    p.after_hostname(&CommandOutcome::NotRun("not found".into()));
    assert_eq!(p.last_error, "Failed to execute wsl: not found");
    p.after_hostname(&CommandOutcome::Succeeded("".into()));
    assert_eq!(p.last_error, "hostname -I returned empty result");
}

#[test]
fn rule_ids_from_creation_time() {
    assert_eq!(new_rule_id(Some(1_700_000_000_123_456_789)), "1700000000123456789");
    assert_eq!(new_rule_id(None), "0");
}
