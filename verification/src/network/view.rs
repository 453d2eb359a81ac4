//! What the network page shows: the listen addresses offered, the rules
//! with their state, and the proxy bypass list.

use vstd::prelude::*;
use crate::network::models::{default_no_proxy, HttpProxyConfig, NetworkInterface, PortProxyRule};
use crate::network::rules::{is_active, rule_is_active};
use crate::number::{decimal, u64_text};
use crate::text::{has_prefix, has_suffix, str_ends_with, str_starts_with};

verus! {

/// The interface can be offered as a listen address: not loopback, not
/// virtual, and not a WSL gateway (`172.*.1`).
pub open spec fn offerable(i: NetworkInterface) -> bool {
    &&& !i.is_loopback
    &&& !i.is_virtual
    &&& !(has_prefix(i.ip_address@, "172."@) && has_suffix(i.ip_address@, ".1"@))
}

/// The address is in the WSL internal range (`172.*`).
pub open spec fn wsl_internal(i: NetworkInterface) -> bool {
    has_prefix(i.ip_address@, "172."@)
}

/// The addresses of the offerable interfaces that are (`internal`) or are not
/// in the WSL range, in order.
pub open spec fn offered_ips(ifaces: Seq<NetworkInterface>, internal: bool) -> Seq<Seq<char>>
    decreases ifaces.len(),
{
    if ifaces.len() == 0 {
        seq![]
    } else {
        let rest = offered_ips(ifaces.drop_last(), internal);
        let x = ifaces.last();
        if offerable(x) && wsl_internal(x) == internal { rest.push(x.ip_address@) } else { rest }
    }
}

/// The listen addresses offered: the wildcard address, then the other
/// addresses, then those in the WSL range.
pub open spec fn ip_choices(ifaces: Seq<NetworkInterface>) -> Seq<Seq<char>> {
    seq!["0.0.0.0"@] + offered_ips(ifaces, false) + offered_ips(ifaces, true)
}

/// The views of a sequence of strings.
pub open spec fn string_views(v: Seq<String>) -> Seq<Seq<char>> {
    v.map_values(|s: String| s@)
}

fn offered(ifaces: &Vec<NetworkInterface>, internal: bool) -> (r: Vec<String>)
    ensures
        string_views(r@) == offered_ips(ifaces@, internal),
{
    let mut out: Vec<String> = Vec::new();
    let mut i: usize = 0;
    assert(string_views(out@) =~= offered_ips(ifaces@.take(0), internal));
    while i < ifaces.len()
        invariant
            i <= ifaces.len(),
            string_views(out@) == offered_ips(ifaces@.take(i as int), internal),
        decreases ifaces.len() - i,
    {
        let ghost t = ifaces@.take(i + 1);
        assert(t.drop_last() =~= ifaces@.take(i as int));
        assert(t.last() == ifaces@[i as int]);
        let ghost before = string_views(out@);
        let x = &ifaces[i];
        let ip = x.ip_address.as_str();
        let internal_ip = str_starts_with(ip, "172.");
        let gateway = internal_ip && str_ends_with(ip, ".1");
        if !x.is_loopback && !x.is_virtual && !gateway && internal_ip == internal {
            out.push(x.ip_address.clone());
            assert(string_views(out@) =~= before.push(x.ip_address@));
        }
        i = i + 1;
    }
    assert(ifaces@.take(ifaces.len() as int) =~= ifaces@);
    out
}

/// The listen addresses offered in the add-rule dialog.
pub fn local_ip_choices(ifaces: &Vec<NetworkInterface>) -> (r: Vec<String>)
    ensures
        string_views(r@) == ip_choices(ifaces@),
{
    let mut out: Vec<String> = Vec::new();
    out.push(crate::text::string_of(crate::text::chars_of("0.0.0.0").as_slice()));
    let mut others = offered(ifaces, false);
    let mut internal = offered(ifaces, true);
    let ghost a = out@;
    let ghost b = others@;
    let ghost c = internal@;
    out.append(&mut others);
    out.append(&mut internal);
    assert(out@ =~= a + b + c);
    assert(string_views(out@) =~= ip_choices(ifaces@));
    out
}

/// A rule as the rule list shows it.
pub struct PortProxyRuleView {
    pub id: String,
    pub distro_name: String,
    pub listen_address: String,
    pub listen_port: String,
    pub target_port: String,
    pub enable_firewall: bool,
    pub is_active: bool,
}

/// `v` shows the rule `r`, whose applied state is `active`.
pub open spec fn shows_rule(v: PortProxyRuleView, r: PortProxyRule, active: bool) -> bool {
    &&& v.id@ == r.id@
    &&& v.distro_name@ == r.distro_name@
    &&& v.listen_address@ == r.listen_address@
    &&& v.listen_port@ == decimal(r.listen_port as nat)
    &&& v.target_port@ == decimal(r.target_port as nat)
    &&& v.enable_firewall == r.enable_firewall
    &&& v.is_active == active
}

/// The rule list: one entry per rule, in order, marked active when its
/// address and port are among `active_ports`.
pub fn rule_views(rules: &Vec<PortProxyRule>, active_ports: &Vec<(String, u16)>) -> (r: Vec<PortProxyRuleView>)
    ensures
        r.len() == rules.len(),
        forall|i: int| 0 <= i < rules.len() ==> shows_rule(#[trigger] r@[i], rules@[i], is_active(active_ports@, rules@[i])),
{
    let mut out: Vec<PortProxyRuleView> = Vec::new();
    let mut i: usize = 0;
    while i < rules.len()
        invariant
            i <= rules.len(),
            out.len() == i,
            forall|k: int| 0 <= k < i ==> shows_rule(#[trigger] out@[k], rules@[k], is_active(active_ports@, rules@[k])),
        decreases rules.len() - i,
    {
        let r = &rules[i];
        let active = rule_is_active(active_ports, r);
        out.push(PortProxyRuleView {
            id: r.id.clone(),
            distro_name: r.distro_name.clone(),
            listen_address: r.listen_address.clone(),
            listen_port: u64_text(r.listen_port as u64),
            target_port: u64_text(r.target_port as u64),
            enable_firewall: r.enable_firewall,
            is_active: active,
        });
        i = i + 1;
    }
    out
}

/// The bypass list shown: the configured one, or the default when it is empty.
pub fn no_proxy_text(proxy: &HttpProxyConfig) -> (r: String)
    ensures
        r@ == if proxy.no_proxy@.len() == 0 { "localhost,127.0.0.1,.example.com"@ } else { proxy.no_proxy@ },
{
    if crate::text::chars_of(proxy.no_proxy.as_str()).len() == 0 {
        default_no_proxy()
    } else {
        proxy.no_proxy.clone()
    }
}

} // verus!
