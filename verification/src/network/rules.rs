//! Managing the list of port forwarding rules: adding with duplicate
//! detection, deleting, and choosing which rules to apply or cancel.

use vstd::prelude::*;
use crate::network::models::{copy_rule, NetworkConfig, PortProxyRule};
use crate::number::{parse_u16_str, parsed_u16};
use crate::text::{has_infix, str_contains};

verus! {

/// Some rule already listens on `address:port`.
pub open spec fn listens_on(rules: Seq<PortProxyRule>, address: Seq<char>, port: u16) -> bool {
    exists|i: int| 0 <= i < rules.len() && #[trigger] rules[i].listen_address@ == address && rules[i].listen_port == port
}

/// No two rules listen on the same address and port.
pub open spec fn endpoints_unique(rules: Seq<PortProxyRule>) -> bool {
    forall|i: int, j: int|
        0 <= i < rules.len() && 0 <= j < rules.len() && i != j
        ==> !(#[trigger] rules[i].listen_address@ == #[trigger] rules[j].listen_address@
            && rules[i].listen_port == rules[j].listen_port)
}

/// The port a text field gives: its `u16` value, or 0 when it does not parse.
pub open spec fn port_or_zero(text: Seq<char>) -> u16 {
    match parsed_u16(text) {
        Some(p) => p,
        None => 0,
    }
}

/// The identifier of a new rule: the creation time in nanoseconds, in
/// decimal, or `0` when that time is out of range.
pub fn new_rule_id(timestamp_nanos: Option<i64>) -> (r: String)
    ensures
        r@ == crate::number::signed_decimal(match timestamp_nanos {
            Some(n) => n as int,
            None => 0,
        }),
{
    crate::number::i64_text(match timestamp_nanos {
        Some(n) => n,
        None => 0,
    })
}

/// Whether some rule already listens on `address:port`.
pub fn is_duplicate_rule(rules: &Vec<PortProxyRule>, address: &str, port: u16) -> (r: bool)
    ensures
        r == listens_on(rules@, address@, port),
{
    let mut i: usize = 0;
    while i < rules.len()
        invariant
            i <= rules.len(),
            forall|k: int| 0 <= k < i ==> !(#[trigger] rules@[k].listen_address@ == address@ && rules@[k].listen_port == port),
        decreases rules.len() - i,
    {
        if rules[i].listen_port == port && crate::text::str_eq(rules[i].listen_address.as_str(), address) {
            return true;
        }
        i = i + 1;
    }
    false
}

/// What happened to a rule the user asked to add.
pub enum AddRuleOutcome {
    /// A rule already listens on the same address and port; nothing changed.
    Duplicate,
    /// The rule was appended.
    Added,
    /// A port was zero or did not parse; nothing changed.
    Ignored,
}

/// The rule that the add dialog describes.
pub open spec fn requested_rule(
    id: Seq<char>,
    distro: Seq<char>,
    address: Seq<char>,
    listen_port: Seq<char>,
    target_port: Seq<char>,
    firewall: bool,
    r: PortProxyRule,
) -> bool {
    &&& r.id@ == id
    &&& r.distro_name@ == distro
    &&& r.listen_address@ == address
    &&& r.listen_port == port_or_zero(listen_port)
    &&& r.target_port == port_or_zero(target_port)
    &&& r.enable_firewall == firewall
}

/// `new` is `old` with the rule of the add dialog appended.
pub open spec fn rule_appended(
    old: Seq<PortProxyRule>,
    new: Seq<PortProxyRule>,
    id: Seq<char>,
    distro: Seq<char>,
    address: Seq<char>,
    listen_port: Seq<char>,
    target_port: Seq<char>,
    firewall: bool,
) -> bool {
    &&& new.len() == old.len() + 1
    &&& new.drop_last() == old
    &&& requested_rule(id, distro, address, listen_port, target_port, firewall, new.last())
}

/// Adds the rule of the add dialog. The ports come as the text of their
/// fields; `id` is the identifier chosen for the new rule.
/// A rule listening on the same address and port refuses the request; a
/// port that is zero or does not parse drops it.
pub fn add_network_rule(
    config: &mut NetworkConfig,
    distro: &str,
    address: &str,
    listen_port: &str,
    target_port: &str,
    firewall: bool,
    id: &str,
) -> (r: AddRuleOutcome)
    ensures
        final(config).proxy == old(config).proxy,
        r is Duplicate <==> listens_on(old(config).port_proxies@, address@, port_or_zero(listen_port@)),
        r is Added <==> !listens_on(old(config).port_proxies@, address@, port_or_zero(listen_port@))
            && port_or_zero(listen_port@) > 0 && port_or_zero(target_port@) > 0,
        r is Added ==> rule_appended(old(config).port_proxies@, final(config).port_proxies@,
            id@, distro@, address@, listen_port@, target_port@, firewall),
        !(r is Added) ==> final(config).port_proxies@ == old(config).port_proxies@,
{
    let lport: u16 = match parse_u16_str(listen_port) {
        Some(p) => p,
        None => 0,
    };
    if is_duplicate_rule(&config.port_proxies, address, lport) {
        return AddRuleOutcome::Duplicate;
    }
    let tport: u16 = match parse_u16_str(target_port) {
        Some(p) => p,
        None => 0,
    };
    let rule = PortProxyRule {
        id: crate::text::string_of(crate::text::chars_of(id).as_slice()),
        distro_name: crate::text::string_of(crate::text::chars_of(distro).as_slice()),
        listen_address: crate::text::string_of(crate::text::chars_of(address).as_slice()),
        listen_port: lport,
        target_port: tport,
        enable_firewall: firewall,
    };
    if lport > 0 && tport > 0 {
        config.port_proxies.push(rule);
        assert(config.port_proxies@.drop_last() =~= old(config).port_proxies@);
        AddRuleOutcome::Added
    } else {
        AddRuleOutcome::Ignored
    }
}

/// The first rule with identifier `id`.
pub open spec fn first_with_id(rules: Seq<PortProxyRule>, id: Seq<char>) -> Option<int> {
    if exists|i: int| 0 <= i < rules.len() && #[trigger] rules[i].id@ == id {
        Some(choose|i: int| 0 <= i < rules.len() && rules[i].id@ == id
            && forall|j: int| 0 <= j < i ==> #[trigger] rules[j].id@ != id)
    } else {
        None
    }
}

/// A copy of the first rule with identifier `id`, if any.
pub fn find_rule(rules: &Vec<PortProxyRule>, id: &str) -> (r: Option<PortProxyRule>)
    ensures
        match first_with_id(rules@, id@) {
            Some(i) => r == Some(rules@[i]),
            None => r is None,
        },
{
    let mut i: usize = 0;
    while i < rules.len()
        invariant
            i <= rules.len(),
            forall|j: int| 0 <= j < i ==> #[trigger] rules@[j].id@ != id@,
        decreases rules.len() - i,
    {
        if crate::text::str_eq(rules[i].id.as_str(), id) {
            proof {
                let w = choose|k: int| 0 <= k < rules@.len() && rules@[k].id@ == id@
                    && forall|j: int| 0 <= j < k ==> #[trigger] rules@[j].id@ != id@;
                assert(rules@[i as int].id@ == id@);
                if w > i {
                    assert(rules@[i as int].id@ != id@);
                }
            }
            return Some(copy_rule(&rules[i]));
        }
        i = i + 1;
    }
    None
}

/// The rules whose identifier is not `id`, in order.
pub open spec fn without_id(rules: Seq<PortProxyRule>, id: Seq<char>) -> Seq<PortProxyRule> {
    rules.filter(other_id(id))
}

/// The test "the rule's identifier is not `id`".
pub open spec fn other_id(id: Seq<char>) -> spec_fn(PortProxyRule) -> bool {
    |r: PortProxyRule| r.id@ != id
}

/// The rules whose identifier is not `id`, in order.
pub fn rules_without_id(rules: &Vec<PortProxyRule>, id: &str) -> (r: Vec<PortProxyRule>)
    ensures
        r@ == without_id(rules@, id@),
{
    let mut kept: Vec<PortProxyRule> = Vec::new();
    let ghost pred = other_id(id@);
    let mut i: usize = 0;
    assert(rules@.take(0).filter(pred) =~= Seq::<PortProxyRule>::empty()) by {
        reveal_with_fuel(Seq::<_>::filter, 1);
    }
    while i < rules.len()
        invariant
            i <= rules.len(),
            kept@ == rules@.take(i as int).filter(pred),
            pred == other_id(id@),
        decreases rules.len() - i,
    {
        let ghost t = rules@.take(i + 1);
        assert(t.drop_last() =~= rules@.take(i as int));
        assert(t.last() == rules@[i as int]);
        if !crate::text::str_eq(rules[i].id.as_str(), id) {
            kept.push(copy_rule(&rules[i]));
        }
        assert(kept@ == t.filter(pred)) by {
            reveal_with_fuel(Seq::<_>::filter, 1);
        }
        i = i + 1;
    }
    assert(rules@.take(rules.len() as int) =~= rules@);
    kept
}

/// Deletes every rule with identifier `id`, keeping the others in order, and
/// returns the first deleted rule (the one whose system settings the caller
/// removes).
pub fn delete_network_rule(config: &mut NetworkConfig, id: &str) -> (r: Option<PortProxyRule>)
    ensures
        final(config).proxy == old(config).proxy,
        final(config).port_proxies@ == without_id(old(config).port_proxies@, id@),
        match first_with_id(old(config).port_proxies@, id@) {
            Some(i) => r == Some(old(config).port_proxies@[i]),
            None => r is None,
        },
{
    let found = find_rule(&config.port_proxies, id);
    let kept = rules_without_id(&config.port_proxies, id);
    config.port_proxies = kept;
    found
}

/// The rules that are (`active == true`) or are not currently applied, in
/// order. A rule is applied when its address and port are among `active_ports`.
pub open spec fn rules_by_activity(
    rules: Seq<PortProxyRule>,
    active_ports: Seq<(String, u16)>,
    active: bool,
) -> Seq<PortProxyRule> {
    rules.filter(|r: PortProxyRule| is_active(active_ports, r) == active)
}

/// The rule's address and port are among `active_ports`.
pub open spec fn is_active(active_ports: Seq<(String, u16)>, r: PortProxyRule) -> bool {
    exists|k: int| 0 <= k < active_ports.len() && #[trigger] active_ports[k].0@ == r.listen_address@
        && active_ports[k].1 == r.listen_port
}

/// Whether the rule's address and port are among `active_ports`.
pub fn rule_is_active(active_ports: &Vec<(String, u16)>, r: &PortProxyRule) -> (b: bool)
    ensures
        b == is_active(active_ports@, *r),
{
    let mut k: usize = 0;
    while k < active_ports.len()
        invariant
            k <= active_ports.len(),
            forall|j: int| 0 <= j < k ==> !(#[trigger] active_ports@[j].0@ == r.listen_address@
                && active_ports@[j].1 == r.listen_port),
        decreases active_ports.len() - k,
    {
        if active_ports[k].1 == r.listen_port && active_ports[k].0 == r.listen_address {
            return true;
        }
        k = k + 1;
    }
    false
}

/// The rules that are (`active == true`) or are not applied: the ones that
/// "cancel all" removes, or the ones that "apply all" considers.
pub fn select_rules(rules: &Vec<PortProxyRule>, active_ports: &Vec<(String, u16)>, active: bool) -> (r: Vec<PortProxyRule>)
    ensures
        r@ == rules_by_activity(rules@, active_ports@, active),
{
    let mut out: Vec<PortProxyRule> = Vec::new();
    let ghost pred = |r: PortProxyRule| is_active(active_ports@, r) == active;
    let mut i: usize = 0;
    assert(rules@.take(0).filter(pred) =~= Seq::<PortProxyRule>::empty()) by {
        reveal_with_fuel(Seq::<_>::filter, 1);
    }
    while i < rules.len()
        invariant
            i <= rules.len(),
            out@ == rules@.take(i as int).filter(pred),
            pred == (|r: PortProxyRule| is_active(active_ports@, r) == active),
        decreases rules.len() - i,
    {
        let ghost t = rules@.take(i + 1);
        assert(t.drop_last() =~= rules@.take(i as int));
        assert(t.last() == rules@[i as int]);
        if rule_is_active(active_ports, &rules[i]) == active {
            out.push(copy_rule(&rules[i]));
        }
        assert(out@ == t.filter(pred)) by {
            reveal_with_fuel(Seq::<_>::filter, 1);
        }
        i = i + 1;
    }
    assert(rules@.take(rules.len() as int) =~= rules@);
    out
}

/// The error text of an elevated command reports a refused elevation
/// (`InvalidOperation` or `denied` in it).
pub open spec fn is_elevation_refusal(e: Seq<char>) -> bool {
    has_infix(e, "InvalidOperation"@) || has_infix(e, "denied"@)
}

/// Whether an elevated command failed because the user refused elevation.
pub fn elevation_refused(e: &str) -> (r: bool)
    ensures
        r == is_elevation_refusal(e@),
{
    str_contains(e, "InvalidOperation") || str_contains(e, "denied")
}

/// What to do right after a rule was saved.
pub enum InstantApply {
    /// The distribution runs: forward the port (and open the firewall if asked).
    ProxyAndFirewall,
    /// The distribution is stopped: only open the firewall.
    FirewallOnly,
    /// The distribution is stopped and no firewall rule is wanted.
    Nothing,
}

/// The immediate action for a newly saved rule: a stopped distribution is not
/// started, so only its firewall rule (if asked for) is applied.
pub fn instant_apply(distro_running: bool, firewall: bool) -> (r: InstantApply)
    ensures
        distro_running ==> r is ProxyAndFirewall,
        !distro_running && firewall ==> r is FirewallOnly,
        !distro_running && !firewall ==> r is Nothing,
{
    if distro_running {
        InstantApply::ProxyAndFirewall
    } else if firewall {
        InstantApply::FirewallOnly
    } else {
        InstantApply::Nothing
    }
}

/// Once a rule for `address:port` was added, asking again for the same
/// address and port is refused as a duplicate.
pub proof fn law_added_rule_blocks_duplicate(
    old: Seq<PortProxyRule>,
    new: Seq<PortProxyRule>,
    id: Seq<char>,
    distro: Seq<char>,
    address: Seq<char>,
    listen_port: Seq<char>,
    target_port: Seq<char>,
    firewall: bool,
)
    requires
        rule_appended(old, new, id, distro, address, listen_port, target_port, firewall),
    ensures
        listens_on(new, address, port_or_zero(listen_port)),
{
    let i = new.len() - 1;
    assert(new[i] == new.last());
}

/// Adding a rule keeps every address and port used by at most one rule.
pub proof fn law_add_keeps_endpoints_unique(
    old: Seq<PortProxyRule>,
    new: Seq<PortProxyRule>,
    id: Seq<char>,
    distro: Seq<char>,
    address: Seq<char>,
    listen_port: Seq<char>,
    target_port: Seq<char>,
    firewall: bool,
)
    requires
        endpoints_unique(old),
        !listens_on(old, address, port_or_zero(listen_port)),
        rule_appended(old, new, id, distro, address, listen_port, target_port, firewall),
    ensures
        endpoints_unique(new),
{
    let n = new.len() - 1;
    assert forall|i: int, j: int|
        0 <= i < new.len() && 0 <= j < new.len() && i != j
        implies !(#[trigger] new[i].listen_address@ == #[trigger] new[j].listen_address@
            && new[i].listen_port == new[j].listen_port) by {
        if i < n && j < n {
            assert(new[i] == old[i]);
            assert(new[j] == old[j]);
        } else if i == n {
            assert(new[j] == old[j]);
            assert(new[i] == new.last());
            if new[i].listen_address@ == new[j].listen_address@ && new[i].listen_port == new[j].listen_port {
                assert(old[j].listen_address@ == address && old[j].listen_port == port_or_zero(listen_port));
            }
        } else {
            assert(new[i] == old[i]);
            assert(new[j] == new.last());
            if new[i].listen_address@ == new[j].listen_address@ && new[i].listen_port == new[j].listen_port {
                assert(old[i].listen_address@ == address && old[i].listen_port == port_or_zero(listen_port));
            }
        }
    }
}

/// After deleting by identifier no rule has that identifier, and every rule
/// with another identifier is still there.
pub proof fn law_delete_removes_exactly_id(rules: Seq<PortProxyRule>, id: Seq<char>)
    ensures
        first_with_id(without_id(rules, id), id) is None,
        forall|i: int| 0 <= i < rules.len() && rules[i].id@ != id
            ==> #[trigger] without_id(rules, id).contains(rules[i]),
{
    let pred = other_id(id);
    let kept = without_id(rules, id);
    assert forall|i: int| 0 <= i < kept.len() implies #[trigger] kept[i].id@ != id by {
        rules.lemma_filter_pred(pred, i);
    }
    assert forall|i: int| 0 <= i < rules.len() && rules[i].id@ != id
        implies #[trigger] without_id(rules, id).contains(rules[i]) by {
        rules.lemma_filter_contains(pred, i);
    }
}

/// "Apply all" and "cancel all" split the rules: an applied rule is among
/// the ones to cancel and not among the ones to apply, and the other way round.
pub proof fn law_apply_cancel_partition(rules: Seq<PortProxyRule>, active_ports: Seq<(String, u16)>, i: int)
    requires
        0 <= i < rules.len(),
    ensures
        is_active(active_ports, rules[i]) ==> rules_by_activity(rules, active_ports, true).contains(rules[i])
            && !rules_by_activity(rules, active_ports, false).contains(rules[i]),
        !is_active(active_ports, rules[i]) ==> rules_by_activity(rules, active_ports, false).contains(rules[i])
            && !rules_by_activity(rules, active_ports, true).contains(rules[i]),
{
    let x = rules[i];
    let a = is_active(active_ports, x);
    let pa = |r: PortProxyRule| is_active(active_ports, r) == a;
    let pn = |r: PortProxyRule| is_active(active_ports, r) == !a;
    rules.lemma_filter_contains(pa, i);
    let other = rules.filter(pn);
    if other.contains(x) {
        let k = choose|k: int| 0 <= k < other.len() && other[k] == x;
        rules.lemma_filter_pred(pn, k);
    }
    assert(rules_by_activity(rules, active_ports, a) == rules.filter(pa));
    assert(rules_by_activity(rules, active_ports, !a) == rules.filter(pn));
}

/// The saved rules are consistent: no two listen on the same address and
/// port, and every listen and target port is positive.
pub open spec fn rules_valid(rules: Seq<PortProxyRule>) -> bool {
    &&& endpoints_unique(rules)
    &&& forall|i: int| 0 <= i < rules.len() ==> #[trigger] rules[i].listen_port > 0 && rules[i].target_port > 0
}

/// Keeping some of the rules, in order, keeps them consistent.
proof fn lemma_filter_keeps_valid(rules: Seq<PortProxyRule>, pred: spec_fn(PortProxyRule) -> bool)
    requires
        rules_valid(rules),
    ensures
        rules_valid(rules.filter(pred)),
    decreases rules.len(),
{
    reveal_with_fuel(Seq::<_>::filter, 1);
    if rules.len() > 0 {
        let s = rules.drop_last();
        let last = rules.last();
        assert forall|i: int, j: int|
            0 <= i < s.len() && 0 <= j < s.len() && i != j
            implies !(#[trigger] s[i].listen_address@ == #[trigger] s[j].listen_address@
                && s[i].listen_port == s[j].listen_port) by {
            assert(s[i] == rules[i] && s[j] == rules[j]);
        }
        assert forall|i: int| 0 <= i < s.len() implies #[trigger] s[i].listen_port > 0 && s[i].target_port > 0 by {
            assert(s[i] == rules[i]);
        }
        lemma_filter_keeps_valid(s, pred);
        let f = s.filter(pred);
        if pred(last) {
            let g = f.push(last);
            assert(rules.filter(pred) == g);
            let n = f.len() as int;
            assert forall|i: int| 0 <= i < g.len() implies #[trigger] g[i].listen_port > 0 && g[i].target_port > 0 by {
                if i < n {
                    assert(g[i] == f[i]);
                } else {
                    assert(g[i] == rules[rules.len() - 1]);
                }
            }
            assert forall|i: int, j: int|
                0 <= i < g.len() && 0 <= j < g.len() && i != j
                implies !(#[trigger] g[i].listen_address@ == #[trigger] g[j].listen_address@
                    && g[i].listen_port == g[j].listen_port) by {
                if i < n && j < n {
                    assert(g[i] == f[i] && g[j] == f[j]);
                } else {
                    let k = if i < n { i } else { j };
                    assert(g[k] == f[k]);
                    assert(f.contains(f[k]));
                    s.lemma_filter_contains_rev(pred, f[k]);
                    let m = choose|m: int| 0 <= m < s.len() && s[m] == f[k];
                    assert(rules[m] == f[k]);
                    assert(g[if i < n { j } else { i }] == rules[rules.len() - 1]);
                    assert(!(rules[m].listen_address@ == rules[rules.len() - 1].listen_address@
                        && rules[m].listen_port == rules[rules.len() - 1].listen_port));
                }
            }
        } else {
            assert(rules.filter(pred) == f);
        }
    }
}

/// Deleting a rule keeps the saved rules consistent: address and port
/// pairs stay unique and every port stays positive.
pub proof fn law_delete_keeps_rules_valid(rules: Seq<PortProxyRule>, id: Seq<char>)
    requires
        rules_valid(rules),
    ensures
        rules_valid(without_id(rules, id)),
{
    lemma_filter_keeps_valid(rules, other_id(id));
}

/// Adding a rule keeps the saved rules consistent: only a rule with a new
/// address and port and with positive ports is appended.
pub proof fn law_add_keeps_rules_valid(
    old: Seq<PortProxyRule>,
    new: Seq<PortProxyRule>,
    id: Seq<char>,
    distro: Seq<char>,
    address: Seq<char>,
    listen_port: Seq<char>,
    target_port: Seq<char>,
    firewall: bool,
)
    requires
        rules_valid(old),
        !listens_on(old, address, port_or_zero(listen_port)),
        port_or_zero(listen_port) > 0,
        port_or_zero(target_port) > 0,
        rule_appended(old, new, id, distro, address, listen_port, target_port, firewall),
    ensures
        rules_valid(new),
{
    law_add_keeps_endpoints_unique(old, new, id, distro, address, listen_port, target_port, firewall);
    assert forall|i: int| 0 <= i < new.len() implies #[trigger] new[i].listen_port > 0 && new[i].target_port > 0 by {
        if i < old.len() {
            assert(new[i] == new.drop_last()[i]);
        } else {
            assert(new[i] == new.last());
        }
    }
}

/// What was learnt of an inactive rule's distribution before "apply all":
/// whether it runs and, when it runs, the address found for it (`None` when
/// the lookup failed; a stopped distribution is not looked up).
pub struct ApplyProbe {
    pub running: bool,
    pub address: Option<String>,
}

/// The (rule, address) pairs that "apply all" forwards, for the first `n`
/// inactive rules: each rule whose distribution runs and whose address was
/// found, in order, with that address.
pub open spec fn apply_pairs(rules: Seq<PortProxyRule>, probes: Seq<ApplyProbe>, n: int) -> Seq<(PortProxyRule, Seq<char>)>
    decreases n,
{
    if n <= 0 {
        Seq::empty()
    } else {
        let before = apply_pairs(rules, probes, n - 1);
        let p = probes[n - 1];
        match p.address {
            Some(a) => if p.running { before.push((rules[n - 1], a@)) } else { before },
            None => before,
        }
    }
}

/// The pairs of rules and address texts.
pub open spec fn pair_views(v: Seq<(PortProxyRule, String)>) -> Seq<(PortProxyRule, Seq<char>)> {
    v.map_values(|p: (PortProxyRule, String)| (p.0, p.1@))
}

/// The batch that "apply all" hands to the elevated command, from the
/// inactive rules (see [`select_rules`]) and what was learnt of each one's
/// distribution: nothing is sent when no rule qualifies.
pub fn apply_all_batch(inactive: &Vec<PortProxyRule>, probes: &Vec<ApplyProbe>) -> (r: Option<Vec<(PortProxyRule, String)>>)
    requires
        probes.len() == inactive.len(),
    ensures
        apply_pairs(inactive@, probes@, inactive@.len() as int).len() == 0 ==> r is None,
        apply_pairs(inactive@, probes@, inactive@.len() as int).len() > 0 ==> (r matches Some(v)
            && pair_views(v@) == apply_pairs(inactive@, probes@, inactive@.len() as int)),
{
    let mut out: Vec<(PortProxyRule, String)> = Vec::new();
    let mut i: usize = 0;
    assert(pair_views(out@) =~= Seq::<(PortProxyRule, Seq<char>)>::empty());
    while i < inactive.len()
        invariant
            i <= inactive.len(),
            probes.len() == inactive.len(),
            pair_views(out@) == apply_pairs(inactive@, probes@, i as int),
        decreases inactive.len() - i,
    {
        let ghost before = out@;
        if probes[i].running {
            match &probes[i].address {
                Some(a) => {
                    out.push((copy_rule(&inactive[i]), a.clone()));
                    assert(pair_views(out@) =~= pair_views(before).push((inactive@[i as int], a@)));
                },
                None => {},
            }
        }
        i = i + 1;
    }
    if out.len() == 0 {
        None
    } else {
        Some(out)
    }
}

/// The batch that "cancel all" hands to the elevated command: the applied
/// rules, in order; nothing is sent when none is applied.
pub fn cancel_all_batch(rules: &Vec<PortProxyRule>, active_ports: &Vec<(String, u16)>) -> (r: Option<Vec<PortProxyRule>>)
    ensures
        rules_by_activity(rules@, active_ports@, true).len() == 0 ==> r is None,
        rules_by_activity(rules@, active_ports@, true).len() > 0 ==> (r matches Some(v)
            && v@ == rules_by_activity(rules@, active_ports@, true)),
{
    let v = select_rules(rules, active_ports, true);
    if v.len() == 0 {
        None
    } else {
        Some(v)
    }
}

} // verus!
