//! The scheduled start-up task: which distributions it handles, which of
//! them it starts, which rules it synchronises, and whether a WSL 2
//! distribution runs.

use vstd::prelude::*;
use crate::network::models::{copy_rule, PortProxyRule};
use crate::text::{
    chars_of, has_infix, has_prefix, lines, lowercase, split_lines, split_whitespace, str_contains,
    str_starts_with, string_of, to_lowercase, views, words,
};

verus! {

/// A configured distribution instance and whether it starts with the system.
pub struct DistroInstance {
    pub name: String,
    pub auto_startup: bool,
}

/// The views of a sequence of strings.
pub open spec fn names(v: Seq<String>) -> Seq<Seq<char>> {
    v.map_values(|s: String| s@)
}

/// The distribution named right after `/scheduler`, when that argument
/// exists and is not another switch.
pub open spec fn explicit_target(args: Seq<String>, pos: int) -> Option<Seq<char>> {
    if pos + 1 < args.len() && !has_prefix(args[pos + 1]@, "/"@) {
        Some(args[pos + 1]@)
    } else {
        None
    }
}

/// `n` has a rule, starts with the system, or has a USB device to attach.
pub open spec fn is_candidate(
    rules: Seq<PortProxyRule>,
    instances: Seq<DistroInstance>,
    usb_targets: Seq<String>,
    n: Seq<char>,
) -> bool {
    ||| exists|i: int| 0 <= i < rules.len() && #[trigger] rules[i].distro_name@ == n
    ||| exists|i: int| 0 <= i < instances.len() && #[trigger] instances[i].name@ == n && instances[i].auto_startup
    ||| exists|i: int| 0 <= i < usb_targets.len() && #[trigger] usb_targets[i]@ == n
}

/// Whether `n` is a target: the explicit one, or else a candidate.
pub open spec fn is_target(
    args: Seq<String>,
    pos: int,
    rules: Seq<PortProxyRule>,
    instances: Seq<DistroInstance>,
    usb_targets: Seq<String>,
    n: Seq<char>,
) -> bool {
    match explicit_target(args, pos) {
        Some(t) => n == t,
        None => is_candidate(rules, instances, usb_targets, n),
    }
}

fn contains_name(v: &Vec<String>, name: &String) -> (r: bool)
    ensures
        r == names(v@).contains(name@),
{
    let mut i: usize = 0;
    while i < v.len()
        invariant
            i <= v.len(),
            forall|j: int| 0 <= j < i ==> #[trigger] v@[j]@ != name@,
        decreases v.len() - i,
    {
        if v[i] == *name {
            assert(names(v@)[i as int] == name@);
            return true;
        }
        i = i + 1;
    }
    assert(!names(v@).contains(name@)) by {
        if names(v@).contains(name@) {
            let k = choose|k: int| 0 <= k < names(v@).len() && names(v@)[k] == name@;
            assert(v@[k]@ == name@);
        }
    }
    false
}

fn push_unique(out: &mut Vec<String>, name: &String)
    requires
        names(old(out)@).no_duplicates(),
    ensures
        names(final(out)@).no_duplicates(),
        forall|n: Seq<char>| names(final(out)@).contains(n) <==> (names(old(out)@).contains(n) || n == name@),
{
    if contains_name(out, name) {
        return;
    }
    let ghost before = names(out@);
    out.push(name.clone());
    assert(names(out@) =~= before.push(name@));
    assert forall|n: Seq<char>| names(out@).contains(n) <==> (before.contains(n) || n == name@) by {
        if names(out@).contains(n) {
            let k = choose|k: int| 0 <= k < names(out@).len() && names(out@)[k] == n;
            if k < before.len() {
                assert(before[k] == n);
            }
        }
        if before.contains(n) {
            let k = choose|k: int| 0 <= k < before.len() && before[k] == n;
            assert(names(out@)[k] == n);
        }
        if n == name@ {
            assert(names(out@)[before.len() as int] == n);
        }
    }
}

/// The distributions the scheduled task handles, each once: the one named
/// after `/scheduler`, or else every distribution with a rule, with
/// start-up enabled, or with a USB device to attach.
pub fn target_distros(
    args: &Vec<String>,
    pos: usize,
    rules: &Vec<PortProxyRule>,
    instances: &Vec<DistroInstance>,
    usb_targets: &Vec<String>,
) -> (r: Vec<String>)
    ensures
        names(r@).no_duplicates(),
        forall|n: Seq<char>| names(r@).contains(n) <==> is_target(args@, pos as int, rules@, instances@, usb_targets@, n),
{
    let mut out: Vec<String> = Vec::new();
    assert(names(out@) =~= Seq::<Seq<char>>::empty());
    if args.len() > 0 && pos < args.len() - 1 && !str_starts_with(args[pos + 1].as_str(), "/") {
        push_unique(&mut out, &args[pos + 1]);
        return out;
    }
    let mut i: usize = 0;
    while i < rules.len()
        invariant
            i <= rules.len(),
            names(out@).no_duplicates(),
            forall|n: Seq<char>| names(out@).contains(n) <==> exists|k: int| 0 <= k < i && #[trigger] rules@[k].distro_name@ == n,
        decreases rules.len() - i,
    {
        push_unique(&mut out, &rules[i].distro_name);
        i = i + 1;
    }
    let mut j: usize = 0;
    while j < instances.len()
        invariant
            j <= instances.len(),
            names(out@).no_duplicates(),
            forall|n: Seq<char>| names(out@).contains(n) <==> (
                (exists|k: int| 0 <= k < rules.len() && #[trigger] rules@[k].distro_name@ == n)
                || exists|k: int| 0 <= k < j && #[trigger] instances@[k].name@ == n && instances@[k].auto_startup),
        decreases instances.len() - j,
    {
        if instances[j].auto_startup {
            push_unique(&mut out, &instances[j].name);
        }
        j = j + 1;
    }
    let mut u: usize = 0;
    while u < usb_targets.len()
        invariant
            u <= usb_targets.len(),
            names(out@).no_duplicates(),
            forall|n: Seq<char>| names(out@).contains(n) <==> (
                (exists|k: int| 0 <= k < rules.len() && #[trigger] rules@[k].distro_name@ == n)
                || (exists|k: int| 0 <= k < instances.len() && #[trigger] instances@[k].name@ == n && instances@[k].auto_startup)
                || exists|k: int| 0 <= k < u && #[trigger] usb_targets@[k]@ == n),
        decreases usb_targets.len() - u,
    {
        push_unique(&mut out, &usb_targets[u]);
        u = u + 1;
    }
    out
}

/// Whether the first instance named `name` starts with the system (false
/// when there is none).
pub open spec fn auto_start_of(instances: Seq<DistroInstance>, name: Seq<char>) -> bool
    decreases instances.len(),
{
    if instances.len() == 0 {
        false
    } else if instances[0].name@ == name {
        instances[0].auto_startup
    } else {
        auto_start_of(instances.drop_first(), name)
    }
}

/// No two instances share a name (the instances are kept by name).
pub open spec fn instance_names_unique(instances: Seq<DistroInstance>) -> bool {
    forall|i: int, j: int| 0 <= i < instances.len() && 0 <= j < instances.len() && i != j
        ==> #[trigger] instances[i].name@ != #[trigger] instances[j].name@
}

/// With unique names, the start-up flag found for an instance's name is
/// that instance's own flag.
proof fn lemma_unique_instance_flag(instances: Seq<DistroInstance>, i: int)
    requires
        instance_names_unique(instances),
        0 <= i < instances.len(),
    ensures
        auto_start_of(instances, instances[i].name@) == instances[i].auto_startup,
    decreases instances.len(),
{
    if i > 0 {
        let rest = instances.drop_first();
        assert(instances[0].name@ != instances[i].name@);
        assert forall|a: int, b: int| 0 <= a < rest.len() && 0 <= b < rest.len() && a != b
            implies #[trigger] rest[a].name@ != #[trigger] rest[b].name@ by {
            assert(rest[a] == instances[a + 1] && rest[b] == instances[b + 1]);
        }
        assert(rest[i - 1] == instances[i]);
        lemma_unique_instance_flag(rest, i - 1);
    }
}

proof fn lemma_auto_start_found(instances: Seq<DistroInstance>, n: Seq<char>)
    requires
        auto_start_of(instances, n),
    ensures
        exists|k: int| 0 <= k < instances.len() && #[trigger] instances[k].name@ == n && instances[k].auto_startup,
    decreases instances.len(),
{
    if instances[0].name@ == n {
        assert(instances[0].name@ == n && instances[0].auto_startup);
    } else {
        let rest = instances.drop_first();
        lemma_auto_start_found(rest, n);
        let k = choose|k: int| 0 <= k < rest.len() && #[trigger] rest[k].name@ == n && rest[k].auto_startup;
        assert(instances[k + 1] == rest[k]);
    }
}

/// With unique instance names, the distributions started are exactly the
/// targets whose instance starts with the system.
proof fn lemma_start_names(targets: Seq<String>, instances: Seq<DistroInstance>)
    requires
        instance_names_unique(instances),
    ensures
        forall|n: Seq<char>| #[trigger] names(targets.filter(starts_with_system(instances))).contains(n) <==> (names(targets).contains(n)
            && exists|k: int| 0 <= k < instances.len() && #[trigger] instances[k].name@ == n && instances[k].auto_startup),
{
    let pred = starts_with_system(instances);
    let st = targets.filter(pred);
    assert forall|n: Seq<char>| #[trigger] names(st).contains(n) <==> (names(targets).contains(n)
        && exists|k: int| 0 <= k < instances.len() && #[trigger] instances[k].name@ == n && instances[k].auto_startup) by {
        if names(st).contains(n) {
            let j = choose|j: int| 0 <= j < names(st).len() && names(st)[j] == n;
            targets.lemma_filter_pred(pred, j);
            assert(st.contains(st[j]));
            targets.lemma_filter_contains_rev(pred, st[j]);
            let m = choose|m: int| 0 <= m < targets.len() && targets[m] == st[j];
            assert(names(targets)[m] == n);
            lemma_auto_start_found(instances, n);
        }
        if names(targets).contains(n) && exists|k: int| 0 <= k < instances.len() && #[trigger] instances[k].name@ == n && instances[k].auto_startup {
            let m = choose|m: int| 0 <= m < names(targets).len() && names(targets)[m] == n;
            let k = choose|k: int| 0 <= k < instances.len() && #[trigger] instances[k].name@ == n && instances[k].auto_startup;
            lemma_unique_instance_flag(instances, k);
            assert(pred(targets[m]));
            targets.lemma_filter_contains(pred, m);
            let j = choose|j: int| 0 <= j < st.len() && st[j] == targets[m];
            assert(names(st)[j] == n);
        }
    }
}

/// Whether the instance named `name` starts with the system.
pub fn auto_starts(instances: &Vec<DistroInstance>, name: &String) -> (r: bool)
    ensures
        r == auto_start_of(instances@, name@),
{
    let mut i: usize = 0;
    assert(instances@.skip(0) =~= instances@);
    while i < instances.len()
        invariant
            i <= instances.len(),
            auto_start_of(instances@.skip(i as int), name@) == auto_start_of(instances@, name@),
        decreases instances.len() - i,
    {
        let ghost rest = instances@.skip(i as int);
        assert(rest[0] == instances@[i as int]);
        assert(rest.drop_first() =~= instances@.skip(i + 1));
        if instances[i].name == *name {
            return instances[i].auto_startup;
        }
        i = i + 1;
    }
    false
}

/// The test "the instance of this name starts with the system".
pub open spec fn starts_with_system(instances: Seq<DistroInstance>) -> spec_fn(String) -> bool {
    |n: String| auto_start_of(instances, n@)
}

/// The targets whose instance starts with the system, in order: the
/// distributions the task starts in the background.
pub fn distros_to_start(targets: &Vec<String>, instances: &Vec<DistroInstance>) -> (r: Vec<String>)
    ensures
        r@ == targets@.filter(starts_with_system(instances@)),
{
    let mut out: Vec<String> = Vec::new();
    let ghost pred = starts_with_system(instances@);
    let mut i: usize = 0;
    assert(targets@.take(0).filter(pred) =~= Seq::<String>::empty()) by {
        reveal_with_fuel(Seq::<_>::filter, 1);
    }
    while i < targets.len()
        invariant
            i <= targets.len(),
            out@ == targets@.take(i as int).filter(pred),
            pred == starts_with_system(instances@),
        decreases targets.len() - i,
    {
        let ghost t = targets@.take(i + 1);
        assert(t.drop_last() =~= targets@.take(i as int));
        assert(t.last() == targets@[i as int]);
        if auto_starts(instances, &targets[i]) {
            out.push(targets[i].clone());
        }
        assert(out@ == t.filter(pred)) by {
            reveal_with_fuel(Seq::<_>::filter, 1);
        }
        i = i + 1;
    }
    assert(targets@.take(targets.len() as int) =~= targets@);
    out
}

/// The test "the rule belongs to distribution `name`".
pub open spec fn for_distro(name: Seq<char>) -> spec_fn(PortProxyRule) -> bool {
    |r: PortProxyRule| r.distro_name@ == name
}

/// The rules of distribution `name`, in order.
pub fn rules_for_distro(rules: &Vec<PortProxyRule>, name: &String) -> (r: Vec<PortProxyRule>)
    ensures
        r@ == rules@.filter(for_distro(name@)),
{
    let mut out: Vec<PortProxyRule> = Vec::new();
    let ghost pred = for_distro(name@);
    let mut i: usize = 0;
    assert(rules@.take(0).filter(pred) =~= Seq::<PortProxyRule>::empty()) by {
        reveal_with_fuel(Seq::<_>::filter, 1);
    }
    while i < rules.len()
        invariant
            i <= rules.len(),
            out@ == rules@.take(i as int).filter(pred),
            pred == for_distro(name@),
        decreases rules.len() - i,
    {
        let ghost t = rules@.take(i + 1);
        assert(t.drop_last() =~= rules@.take(i as int));
        assert(t.last() == rules@[i as int]);
        if rules[i].distro_name == *name {
            out.push(copy_rule(&rules[i]));
        }
        assert(out@ == t.filter(pred)) by {
            reveal_with_fuel(Seq::<_>::filter, 1);
        }
        i = i + 1;
    }
    assert(rules@.take(rules.len() as int) =~= rules@);
    out
}

/// A line of `wsl -l -v` (after the header) shows a running WSL 2
/// distribution: it mentions `running` in any case and has a column `2`.
pub open spec fn shows_running_wsl2(line: Seq<char>) -> bool {
    has_infix(lowercase(line), "running"@) && words(line).contains("2"@)
}

/// Some line after the header of `wsl -l -v` shows a running WSL 2 distribution.
pub open spec fn any_running_wsl2(out: Seq<char>) -> bool {
    exists|i: int| 1 <= i < lines(out).len() && shows_running_wsl2(#[trigger] lines(out)[i])
}

fn has_word(ws: &Vec<Vec<char>>, w: &Vec<char>) -> (r: bool)
    ensures
        r == views(ws@).contains(w@),
{
    let mut i: usize = 0;
    while i < ws.len()
        invariant
            i <= ws.len(),
            forall|j: int| 0 <= j < i ==> #[trigger] ws@[j]@ != w@,
        decreases ws.len() - i,
    {
        if ws[i].len() == w.len() && crate::text::starts_with(&ws[i], w) {
            assert(ws@[i as int]@ =~= w@);
            assert(views(ws@)[i as int] == w@);
            return true;
        }
        proof {
            if ws@[i as int]@ == w@ {
                assert(ws@[i as int]@.take(w@.len() as int) =~= w@);
            }
        }
        i = i + 1;
    }
    assert(!views(ws@).contains(w@)) by {
        if views(ws@).contains(w@) {
            let k = choose|k: int| 0 <= k < views(ws@).len() && views(ws@)[k] == w@;
            assert(ws@[k]@ == w@);
        }
    }
    false
}

/// Whether a WSL 2 distribution runs, from the standard output of
/// `wsl -l -v` (`None` when the command could not run).
pub fn is_any_wsl2_running(list_output: &Option<String>) -> (r: bool)
    ensures
        r == (list_output matches Some(out) && any_running_wsl2(out@)),
        r ==> (list_output matches Some(out) && exists|i: int| 1 <= i < lines(out@).len()
            && has_infix(lowercase(#[trigger] lines(out@)[i]), "running"@) && words(lines(out@)[i]).contains("2"@)),
        (list_output matches Some(out) && exists|i: int| 1 <= i < lines(out@).len()
            && has_infix(lowercase(#[trigger] lines(out@)[i]), "running"@) && words(lines(out@)[i]).contains("2"@)) ==> r,
{
    proof {
        if let Some(out) = list_output {
            law_running_wsl2_needs_running_version2_line(out@);
        }
    }
    match list_output {
        Some(out) => {
            let ls = split_lines(&chars_of(out.as_str()));
            let ghost vs = views(ls@);
            let two = chars_of("2");
            let mut i: usize = 1;
            while i < ls.len()
                invariant
                    1 <= i,
                    vs == views(ls@),
                    vs.len() == ls.len(),
                    vs == lines(out@),
                    two@ == "2"@,
                    *list_output == Some(*out),
                    forall|j: int| 1 <= j < i && j < ls.len() ==> !shows_running_wsl2(#[trigger] vs[j]),
                decreases ls.len() - i,
            {
                assert(vs[i as int] == ls@[i as int]@);
                let line = string_of(ls[i].as_slice());
                let lower = to_lowercase(line.as_str());
                if str_contains(lower.as_str(), "running") && has_word(&split_whitespace(&ls[i]), &two) {
                    assert(shows_running_wsl2(lines(out@)[i as int]));
                    return true;
                }
                i = i + 1;
            }
            false
        },
        None => false,
    }
}

/// Synchronising the forwarding rules of one distribution.
pub struct SyncJob {
    pub distro: String,
    pub rules: Vec<PortProxyRule>,
}

/// What the scheduled task does, in order: start some distributions in the
/// background, wait for their network when any was started, synchronise the
/// rules of each target that has rules, then (when USB devices are to be
/// attached) look for a running WSL 2 distribution and attach them.
pub struct SchedulerPlan {
    pub targets: Vec<String>,
    pub start: Vec<String>,
    pub wait_for_network: bool,
    pub sync: Vec<SyncJob>,
    pub attach_usb: bool,
}

/// The test "some rule belongs to this distribution".
pub open spec fn has_rules(rules: Seq<PortProxyRule>) -> spec_fn(String) -> bool {
    |n: String| exists|i: int| 0 <= i < rules.len() && #[trigger] rules[i].distro_name@ == n@
}

/// The distributions of the jobs, in order.
pub open spec fn job_distros(jobs: Seq<SyncJob>) -> Seq<String> {
    jobs.map_values(|j: SyncJob| j.distro)
}

proof fn lemma_rules_for_nonempty(rules: Seq<PortProxyRule>, n: String)
    ensures
        rules.filter(for_distro(n@)).len() > 0 <==> has_rules(rules)(n),
{
    let pred = for_distro(n@);
    let f = rules.filter(pred);
    if has_rules(rules)(n) {
        let i = choose|i: int| 0 <= i < rules.len() && #[trigger] rules[i].distro_name@ == n@;
        rules.lemma_filter_contains(pred, i);
    }
    if f.len() > 0 {
        rules.lemma_filter_pred(pred, 0);
        assert(f.contains(f[0]));
        rules.lemma_filter_contains_rev(pred, f[0]);
        let i = choose|i: int| 0 <= i < rules.len() && rules[i] == f[0];
        assert(rules[i].distro_name@ == n@);
    }
}

/// The plan of the scheduled task for the arguments after `/scheduler`
/// (at `pos`), the saved rules, the instances and the distributions of the
/// USB devices to attach. A target without rules is not synchronised, and
/// the task waits for the network only when it started some distribution.
pub fn scheduler_plan(
    args: &Vec<String>,
    pos: usize,
    rules: &Vec<PortProxyRule>,
    instances: &Vec<DistroInstance>,
    usb_targets: &Vec<String>,
) -> (r: SchedulerPlan)
    requires
        instance_names_unique(instances@),
    ensures
        names(r.targets@).no_duplicates(),
        forall|n: Seq<char>| names(r.targets@).contains(n) <==> is_target(args@, pos as int, rules@, instances@, usb_targets@, n),
        r.start@ == r.targets@.filter(starts_with_system(instances@)),
        forall|n: Seq<char>| #[trigger] names(r.start@).contains(n) <==> (names(r.targets@).contains(n)
            && exists|k: int| 0 <= k < instances@.len() && #[trigger] instances@[k].name@ == n && instances@[k].auto_startup),
        r.wait_for_network == (r.start@.len() > 0),
        job_distros(r.sync@) == r.targets@.filter(has_rules(rules@)),
        forall|k: int| 0 <= k < r.sync@.len() ==> (#[trigger] r.sync@[k]).rules@ == rules@.filter(for_distro(r.sync@[k].distro@)),
        r.attach_usb == (usb_targets@.len() > 0),
{
    let targets = target_distros(args, pos, rules, instances, usb_targets);
    let start = distros_to_start(&targets, instances);
    let wait_for_network = start.len() > 0;
    let mut sync: Vec<SyncJob> = Vec::new();
    let ghost pred = has_rules(rules@);
    let mut i: usize = 0;
    assert(targets@.take(0).filter(pred) =~= Seq::<String>::empty()) by {
        reveal_with_fuel(Seq::<_>::filter, 1);
    }
    assert(job_distros(sync@) =~= Seq::<String>::empty());
    while i < targets.len()
        invariant
            i <= targets.len(),
            pred == has_rules(rules@),
            job_distros(sync@) == targets@.take(i as int).filter(pred),
            forall|k: int| 0 <= k < sync@.len() ==> (#[trigger] sync@[k]).rules@ == rules@.filter(for_distro(sync@[k].distro@)),
        decreases targets.len() - i,
    {
        let ghost t = targets@.take(i + 1);
        assert(t.drop_last() =~= targets@.take(i as int));
        assert(t.last() == targets@[i as int]);
        let rs = rules_for_distro(rules, &targets[i]);
        proof {
            lemma_rules_for_nonempty(rules@, targets@[i as int]);
        }
        if rs.len() > 0 {
            let ghost before = sync@;
            sync.push(SyncJob { distro: targets[i].clone(), rules: rs });
            assert(job_distros(sync@) =~= job_distros(before).push(targets@[i as int]));
        }
        assert(job_distros(sync@) == t.filter(pred)) by {
            reveal_with_fuel(Seq::<_>::filter, 1);
        }
        i = i + 1;
    }
    assert(targets@.take(targets.len() as int) =~= targets@);
    proof {
        lemma_start_names(targets@, instances@);
    }
    SchedulerPlan {
        targets,
        start,
        wait_for_network,
        sync,
        attach_usb: usb_targets.len() > 0,
    }
}

/// A WSL 2 distribution counts as running exactly when some line after the
/// header of `wsl -l -v` mentions `running` (in any case) and has a column
/// `2`: a stopped WSL 2 distribution, or a running WSL 1 one, does not.
pub proof fn law_running_wsl2_needs_running_version2_line(out: Seq<char>)
    ensures
        any_running_wsl2(out) <==> exists|i: int| 1 <= i < lines(out).len()
            && has_infix(lowercase(#[trigger] lines(out)[i]), "running"@) && words(lines(out)[i]).contains("2"@),
{
    if any_running_wsl2(out) {
        let i = choose|i: int| 1 <= i < lines(out).len() && shows_running_wsl2(#[trigger] lines(out)[i]);
        assert(has_infix(lowercase(lines(out)[i]), "running"@) && words(lines(out)[i]).contains("2"@));
    }
    if exists|i: int| 1 <= i < lines(out).len()
        && has_infix(lowercase(#[trigger] lines(out)[i]), "running"@) && words(lines(out)[i]).contains("2"@) {
        let i = choose|i: int| 1 <= i < lines(out).len()
            && has_infix(lowercase(#[trigger] lines(out)[i]), "running"@) && words(lines(out)[i]).contains("2"@);
        assert(shows_running_wsl2(lines(out)[i]));
    }
}

} // verus!
