//! Finding the IPv4 address of a running distribution from the output of
//! `hostname -I` and `ip -4 addr show`, with retries, and telling whether a
//! distribution runs from `wsl -l -q --running`.

use vstd::prelude::*;
use crate::text::{
    before_char, chars_of, eq_ascii_nocase, eq_ignore_ascii_case, has_prefix, lines, prefix_before_char,
    split_lines, split_whitespace, starts_with, string_of, trim, trim_chars, trim_str, views, words,
};

verus! {

/// The result of running a command.
pub enum CommandOutcome {
    /// It exited successfully; its standard output, decoded.
    Succeeded(String),
    /// It exited with an error; its standard error, decoded.
    Failed(String),
    /// It could not be started; the error text.
    NotRun(String),
}

/// The index of the first word that starts with `p`.
pub open spec fn first_with_prefix(ws: Seq<Seq<char>>, p: Seq<char>) -> Option<int> {
    if exists|i: int| 0 <= i < ws.len() && has_prefix(#[trigger] ws[i], p) {
        Some(choose|i: int| 0 <= i < ws.len() && has_prefix(ws[i], p)
            && forall|j: int| 0 <= j < i ==> !has_prefix(#[trigger] ws[j], p))
    } else {
        None
    }
}

/// The address chosen from `hostname -I`: the first one in the WSL bridge
/// range (`172.*`), else the first one; none for blank output.
pub open spec fn hostname_ip(out: Seq<char>) -> Option<Seq<char>> {
    let t = trim(out);
    let ws = words(t);
    if t.len() == 0 {
        None
    } else {
        match first_with_prefix(ws, "172."@) {
            Some(i) => Some(ws[i]),
            None => if ws.len() > 0 { Some(ws[0]) } else { None },
        }
    }
}

/// The address an `ip addr` line gives: for a line `inet <addr>/<bits> ...`,
/// the address unless it is `127.0.0.1`.
pub open spec fn inet_address(line: Seq<char>) -> Option<Seq<char>> {
    let t = trim(line);
    let parts = words(t);
    if has_prefix(t, "inet "@) && parts.len() > 1 && before_char(parts[1], '/') != "127.0.0.1"@ {
        Some(before_char(parts[1], '/'))
    } else {
        None
    }
}

/// The first address that one of the lines gives.
pub open spec fn first_inet(ls: Seq<Seq<char>>) -> Option<Seq<char>>
    decreases ls.len(),
{
    if ls.len() == 0 {
        None
    } else {
        match inet_address(ls[0]) {
            Some(ip) => Some(ip),
            None => first_inet(ls.drop_first()),
        }
    }
}

/// The address chosen from `ip -4 addr show`.
pub open spec fn ip_addr_ip(out: Seq<char>) -> Option<Seq<char>> {
    first_inet(lines(out))
}

/// Index of the first word of `ws` that starts with `p`.
fn find_word_with_prefix(ws: &Vec<Vec<char>>, p: &Vec<char>) -> (r: Option<usize>)
    ensures
        r matches Some(i) ==> i < ws.len(),
        match first_with_prefix(views(ws@), p@) {
            Some(i) => r matches Some(k) && k as int == i,
            None => r is None,
        },
{
    let ghost vs = views(ws@);
    let mut i: usize = 0;
    while i < ws.len()
        invariant
            i <= ws.len(),
            vs == views(ws@),
            vs.len() == ws.len(),
            forall|j: int| 0 <= j < i ==> !has_prefix(#[trigger] vs[j], p@),
        decreases ws.len() - i,
    {
        assert(vs[i as int] == ws@[i as int]@);
        if starts_with(&ws[i], p) {
            proof {
                let w = choose|k: int| 0 <= k < vs.len() && has_prefix(vs[k], p@)
                    && forall|j: int| 0 <= j < k ==> !has_prefix(#[trigger] vs[j], p@);
                assert(has_prefix(vs[i as int], p@));
                if w > i {
                    assert(!has_prefix(vs[i as int], p@));
                }
            }
            return Some(i);
        }
        i = i + 1;
    }
    None
}

/// The address chosen from the output of `hostname -I`.
pub fn pick_hostname_ip(out: &str) -> (r: Option<String>)
    ensures
        match hostname_ip(out@) {
            Some(ip) => r matches Some(s) && s@ == ip,
            None => r is None,
        },
        forall|i: int| 0 <= i < words(trim(out@)).len() && has_prefix(#[trigger] words(trim(out@))[i], "172."@)
            && (forall|j: int| 0 <= j < i ==> !has_prefix(#[trigger] words(trim(out@))[j], "172."@))
            ==> (r matches Some(s) && s@ == words(trim(out@))[i]),
        words(trim(out@)).len() > 0
            && (forall|j: int| 0 <= j < words(trim(out@)).len() ==> !has_prefix(#[trigger] words(trim(out@))[j], "172."@))
            ==> (r matches Some(s) && s@ == words(trim(out@))[0]),
        words(trim(out@)).len() == 0 ==> r is None,
{
    proof {
        assert forall|i: int| 0 <= i < words(trim(out@)).len() && has_prefix(#[trigger] words(trim(out@))[i], "172."@)
            && (forall|j: int| 0 <= j < i ==> !has_prefix(#[trigger] words(trim(out@))[j], "172."@))
            implies hostname_ip(out@) == Some(words(trim(out@))[i]) by {
            law_hostname_first_bridge_address(out@, i);
        }
        law_hostname_without_bridge_address(out@);
    }
    let t = trim_chars(&chars_of(out));
    if t.len() == 0 {
        return None;
    }
    let ws = split_whitespace(&t);
    let ghost vs = views(ws@);
    match find_word_with_prefix(&ws, &chars_of("172.")) {
        Some(i) => {
            assert(vs[i as int] == ws@[i as int]@);
            assert(vs == words(trim(out@)));
            assert(hostname_ip(out@) == Some(vs[i as int]));
            Some(string_of(ws[i].as_slice()))
        },
        None => {
            if ws.len() > 0 {
                assert(vs[0] == ws@[0]@);
                assert(hostname_ip(out@) == Some(vs[0]));
                Some(string_of(ws[0].as_slice()))
            } else {
                None
            }
        },
    }
}

/// The address an `ip addr` line gives.
fn line_inet_address(line: &Vec<char>) -> (r: Option<Vec<char>>)
    ensures
        match inet_address(line@) {
            Some(ip) => r matches Some(v) && v@ == ip,
            None => r is None,
        },
{
    let t = trim_chars(line);
    if !starts_with(&t, &chars_of("inet ")) {
        return None;
    }
    let parts = split_whitespace(&t);
    let ghost vs = views(parts@);
    if parts.len() <= 1 {
        return None;
    }
    assert(vs[1] == parts@[1]@);
    let ip = prefix_before_char(&parts[1], '/');
    let lo = chars_of("127.0.0.1");
    if ip.len() == lo.len() && starts_with(&ip, &lo) {
        assert(ip@ =~= lo@);
        None
    } else {
        assert(ip@ != lo@) by {
            if ip@ == lo@ {
                assert(ip@.take(lo@.len() as int) =~= lo@);
            }
        }
        Some(ip)
    }
}

/// The address chosen from the output of `ip -4 addr show`.
pub fn pick_ip_addr_ip(out: &str) -> (r: Option<String>)
    ensures
        match ip_addr_ip(out@) {
            Some(ip) => r matches Some(s) && s@ == ip,
            None => r is None,
        },
{
    let ls = split_lines(&chars_of(out));
    let ghost vs = views(ls@);
    let mut i: usize = 0;
    assert(vs.skip(0) =~= vs);
    while i < ls.len()
        invariant
            i <= ls.len(),
            vs == views(ls@),
            vs.len() == ls.len(),
            first_inet(vs.skip(i as int)) == first_inet(vs),
            vs == lines(out@),
        decreases ls.len() - i,
    {
        let ghost rest = vs.skip(i as int);
        assert(rest[0] == ls@[i as int]@);
        assert(rest.drop_first() =~= vs.skip(i + 1));
        match line_inet_address(&ls[i]) {
            Some(ip) => {
                return Some(string_of(ip.as_slice()));
            },
            None => {},
        }
        i = i + 1;
    }
    assert(vs.skip(i as int) =~= Seq::<Seq<char>>::empty());
    None
}

/// Some line of `wsl -l -q --running` names the distribution, ignoring
/// surrounding white space and ASCII case.
pub open spec fn lists_distro(out: Seq<char>, name: Seq<char>) -> bool {
    exists|i: int| 0 <= i < lines(out).len() && eq_ascii_nocase(trim(#[trigger] lines(out)[i]), name)
}

/// The listing of running distributions was obtained and names `name`.
pub open spec fn runs_by_listing(list_output: CommandOutcome, name: Seq<char>) -> bool {
    match list_output {
        CommandOutcome::Succeeded(out) => lists_distro(out@, name),
        _ => false,
    }
}

/// Whether the distribution runs, from the result of `wsl -l -q --running`:
/// a failed or unstarted command counts as not running.
pub fn is_distro_running(list_output: &CommandOutcome, distro_name: &str) -> (r: bool)
    ensures
        r == runs_by_listing(*list_output, distro_name@),
{
    match list_output {
        CommandOutcome::Succeeded(out) => {
            let ls = split_lines(&chars_of(out.as_str()));
            let name = chars_of(distro_name);
            let ghost vs = views(ls@);
            let mut i: usize = 0;
            while i < ls.len()
                invariant
                    i <= ls.len(),
                    vs == views(ls@),
                    vs.len() == ls.len(),
                    vs == lines(out@),
                    name@ == distro_name@,
                    *list_output == CommandOutcome::Succeeded(*out),
                    forall|j: int| 0 <= j < i ==> !eq_ascii_nocase(trim(#[trigger] vs[j]), name@),
                decreases ls.len() - i,
            {
                assert(vs[i as int] == ls@[i as int]@);
                let t = trim_chars(&ls[i]);
                if eq_ignore_ascii_case(&t, &name) {
                    assert(eq_ascii_nocase(trim(lines(out@)[i as int]), distro_name@));
                    return true;
                }
                i = i + 1;
            }
            false
        },
        _ => false,
    }
}

/// How many rounds the address search makes before it gives up.
pub const PROBE_ROUNDS: u32 = 30;

/// The search for a distribution's address: which round it is in and the
/// last error seen.
pub struct IpProbe {
    pub distro: String,
    pub attempt: u32,
    pub last_error: String,
}

/// What the caller does next in the address search.
pub enum ProbeAction {
    /// Run `hostname -I` in the distribution.
    RunHostname,
    /// Run `ip -4 addr show` in the distribution.
    RunIpAddr,
    /// Wait one second, then run `hostname -I` (a new round).
    WaitThenRunHostname,
    /// The address was found.
    Found(String),
    /// No address after the last round; the error text.
    GiveUp(String),
}

/// The error text when every round failed.
pub open spec fn give_up_message(distro: Seq<char>, last_error: Seq<char>) -> Seq<char> {
    "Could not find IPv4 address for "@ + distro + " after 10 attempts. Last error: "@ + last_error
}

/// The state after a round without an address, with `last_error` as the
/// error kept: the next round, or the end after the last one.
pub open spec fn next_round(old: IpProbe, new: IpProbe, last_error: Seq<char>, a: ProbeAction) -> bool {
    &&& new.distro == old.distro
    &&& new.last_error@ == last_error
    &&& if old.attempt < PROBE_ROUNDS {
        new.attempt == old.attempt + 1 && a is WaitThenRunHostname
    } else {
        &&& new.attempt == old.attempt
        &&& a matches ProbeAction::GiveUp(m) && m@ == give_up_message(old.distro@, last_error)
    }
}

/// The step after `hostname -I` ran with `outcome`.
pub open spec fn hostname_step(old: IpProbe, outcome: CommandOutcome, new: IpProbe, a: ProbeAction) -> bool {
    &&& new.distro == old.distro
    &&& new.attempt == old.attempt
    &&& match outcome {
        CommandOutcome::Succeeded(out) => match hostname_ip(out@) {
            Some(ip) => (a matches ProbeAction::Found(s) && s@ == ip) && new.last_error == old.last_error,
            None => a is RunIpAddr && new.last_error@ == "hostname -I returned empty result"@,
        },
        CommandOutcome::Failed(err) => a is RunIpAddr
            && new.last_error@ == "wsl command exited with error: "@ + trim(err@),
        CommandOutcome::NotRun(e) => a is RunIpAddr && new.last_error@ == "Failed to execute wsl: "@ + e@,
    }
}

/// The step after `ip -4 addr show` ran with `outcome`.
pub open spec fn ip_addr_step(old: IpProbe, outcome: CommandOutcome, new: IpProbe, a: ProbeAction) -> bool {
    match outcome {
        CommandOutcome::Succeeded(out) => match ip_addr_ip(out@) {
            Some(ip) => (a matches ProbeAction::Found(s) && s@ == ip) && new == old,
            None => next_round(old, new, old.last_error@, a),
        },
        CommandOutcome::Failed(err) => next_round(old, new, "ip addr fallback failed: "@ + trim(err@), a),
        CommandOutcome::NotRun(_) => next_round(old, new, old.last_error@, a),
    }
}

fn concat_text(a: &str, b: &str) -> (r: String)
    ensures
        r@ == a@ + b@,
{
    let mut v = chars_of(a);
    crate::text::push_str(&mut v, b);
    string_of(v.as_slice())
}

impl IpProbe {
    /// The round counter is in range.
    pub open spec fn wf(&self) -> bool {
        1 <= self.attempt <= PROBE_ROUNDS
    }

    /// Starts the search for `distro`'s address: the first round runs
    /// `hostname -I` at once.
    pub fn start(distro: &str) -> (r: (IpProbe, ProbeAction))
        ensures
            r.0.wf(),
            r.0.attempt == 1,
            r.0.distro@ == distro@,
            r.0.last_error@.len() == 0,
            r.1 is RunHostname,
    {
        (IpProbe { distro: string_of(chars_of(distro).as_slice()), attempt: 1, last_error: String::new() },
            ProbeAction::RunHostname)
    }

    /// Takes the result of `hostname -I`: an address ends the search, else
    /// the error is noted and `ip -4 addr show` runs next.
    pub fn after_hostname(&mut self, outcome: &CommandOutcome) -> (a: ProbeAction)
        requires
            old(self).wf(),
        ensures
            final(self).wf(),
            hostname_step(*old(self), *outcome, *final(self), a),
    {
        match outcome {
            CommandOutcome::Succeeded(out) => {
                match pick_hostname_ip(out.as_str()) {
                    Some(ip) => ProbeAction::Found(ip),
                    None => {
                        self.last_error = string_of(chars_of("hostname -I returned empty result").as_slice());
                        ProbeAction::RunIpAddr
                    },
                }
            },
            CommandOutcome::Failed(err) => {
                self.last_error = concat_text("wsl command exited with error: ", trim_str(err.as_str()).as_str());
                ProbeAction::RunIpAddr
            },
            CommandOutcome::NotRun(e) => {
                self.last_error = concat_text("Failed to execute wsl: ", e.as_str());
                ProbeAction::RunIpAddr
            },
        }
    }

    fn finish_round(&mut self) -> (a: ProbeAction)
        requires
            old(self).wf(),
        ensures
            final(self).wf(),
            next_round(*old(self), *final(self), old(self).last_error@, a),
    {
        if self.attempt < PROBE_ROUNDS {
            self.attempt = self.attempt + 1;
            ProbeAction::WaitThenRunHostname
        } else {
            let mut v = chars_of("Could not find IPv4 address for ");
            crate::text::push_str(&mut v, self.distro.as_str());
            crate::text::push_str(&mut v, " after 10 attempts. Last error: ");
            crate::text::push_str(&mut v, self.last_error.as_str());
            assert(v@ =~= give_up_message(self.distro@, self.last_error@));
            ProbeAction::GiveUp(string_of(v.as_slice()))
        }
    }

    /// Takes the result of `ip -4 addr show`: an address ends the search;
    /// else the next round starts after a pause, or the search gives up
    /// after the last round.
    pub fn after_ip_addr(&mut self, outcome: &CommandOutcome) -> (a: ProbeAction)
        requires
            old(self).wf(),
        ensures
            final(self).wf(),
            ip_addr_step(*old(self), *outcome, *final(self), a),
    {
        match outcome {
            CommandOutcome::Succeeded(out) => {
                match pick_ip_addr_ip(out.as_str()) {
                    Some(ip) => ProbeAction::Found(ip),
                    None => self.finish_round(),
                }
            },
            CommandOutcome::Failed(err) => {
                self.last_error = concat_text("ip addr fallback failed: ", trim_str(err.as_str()).as_str());
                self.finish_round()
            },
            CommandOutcome::NotRun(_) => self.finish_round(),
        }
    }
}

/// `hostname -I` lists a WSL bridge address (`172.*`): the address chosen
/// is the first such word, whatever follows it (such as a Docker bridge).
pub proof fn law_hostname_first_bridge_address(out: Seq<char>, i: int)
    requires
        0 <= i < words(trim(out)).len(),
        has_prefix(words(trim(out))[i], "172."@),
        forall|j: int| 0 <= j < i ==> !has_prefix(#[trigger] words(trim(out))[j], "172."@),
    ensures
        hostname_ip(out) == Some(words(trim(out))[i]),
{
    let t = trim(out);
    let ws = words(t);
    if t.len() == 0 {
        assert(crate::text::words_from(t, seq![]) =~= Seq::<Seq<char>>::empty());
    }
    assert(has_prefix(ws[i], "172."@));
    let c = choose|k: int| 0 <= k < ws.len() && has_prefix(ws[k], "172."@)
        && forall|j: int| 0 <= j < k ==> !has_prefix(#[trigger] ws[j], "172."@);
    assert(0 <= c < ws.len() && has_prefix(ws[c], "172."@));
    if c < i {
        assert(!has_prefix(ws[c], "172."@));
    }
    if c > i {
        assert(!has_prefix(ws[i], "172."@));
    }
    assert(first_with_prefix(ws, "172."@) == Some(i));
}

/// Without a `172.*` word, the first word of `hostname -I` is chosen, and
/// no word at all gives no address.
pub proof fn law_hostname_without_bridge_address(out: Seq<char>)
    ensures
        words(trim(out)).len() > 0
            && (forall|j: int| 0 <= j < words(trim(out)).len() ==> !has_prefix(#[trigger] words(trim(out))[j], "172."@))
            ==> hostname_ip(out) == Some(words(trim(out))[0]),
        words(trim(out)).len() == 0 ==> hostname_ip(out) is None,
{
    let t = trim(out);
    if t.len() == 0 {
        assert(crate::text::words_from(t, seq![]) =~= Seq::<Seq<char>>::empty());
    }
}

} // verus!
