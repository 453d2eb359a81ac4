//! Turning on sparse mode of a distribution's disk, with retries while
//! another process holds the disk file.

use vstd::prelude::*;
use crate::text::{chars_of, has_infix, str_contains, string_of};

verus! {

/// The result of a `wsl` command.
pub struct CommandResult {
    pub success: bool,
    pub output: String,
    pub error: Option<String>,
}

/// How many times setting sparse mode is tried again.
pub const SPARSE_RETRIES: u32 = 5;

/// Sparse mode is set when asked for or when the disk was sparse before.
pub fn sparse_needed(enable_sparse_flag: bool, initial_is_sparse: bool) -> (r: bool)
    ensures
        r == (enable_sparse_flag || initial_is_sparse),
{
    enable_sparse_flag || initial_is_sparse
}

/// The text reports a sharing violation on the disk file.
pub open spec fn names_sharing_violation(t: Seq<char>) -> bool {
    has_infix(t, "ERROR_SHARING_VIOLATION"@) || has_infix(t, "0x80070020"@)
}

/// The command failed because another process held the disk file.
pub open spec fn sharing_violation(r: CommandResult) -> bool {
    names_sharing_violation(r.output@) || (r.error matches Some(e) && names_sharing_violation(e@))
}

fn mentions_sharing_violation(t: &str) -> (r: bool)
    ensures
        r == names_sharing_violation(t@),
{
    str_contains(t, "ERROR_SHARING_VIOLATION") || str_contains(t, "0x80070020")
}

/// Whether to try again after `retries` retries: only a sharing violation
/// is retried, at most [`SPARSE_RETRIES`] times.
pub fn should_retry_sparse(result: &CommandResult, retries: u32) -> (r: bool)
    ensures
        r == (!result.success && sharing_violation(*result) && retries < SPARSE_RETRIES),
{
    if result.success || retries >= SPARSE_RETRIES {
        return false;
    }
    if mentions_sharing_violation(result.output.as_str()) {
        return true;
    }
    match &result.error {
        Some(e) => mentions_sharing_violation(e.as_str()),
        None => false,
    }
}

/// One step before trying again.
pub enum SparseStep {
    /// Wait this many seconds.
    Pause(u64),
    /// Terminate the distribution.
    Terminate,
    /// Shut WSL down.
    Shutdown,
    /// Set sparse mode again.
    SetSparse,
}

/// The steps of retry number `retries` (counting from 0): wait, terminate
/// the distribution, from the third retry on also shut WSL down and wait,
/// then wait and set sparse mode again.
pub open spec fn retry_steps(retries: u32) -> Seq<SparseStep> {
    seq![SparseStep::Pause(3), SparseStep::Terminate]
        + (if retries >= 2 { seq![SparseStep::Shutdown, SparseStep::Pause(2)] } else { Seq::<SparseStep>::empty() })
        + seq![SparseStep::Pause(1), SparseStep::SetSparse]
}

/// The steps of retry number `retries`.
pub fn sparse_retry_steps(retries: u32) -> (r: Vec<SparseStep>)
    ensures
        r@ == retry_steps(retries),
        retries < 2 ==> r@ == seq![SparseStep::Pause(3), SparseStep::Terminate, SparseStep::Pause(1), SparseStep::SetSparse],
        retries >= 2 ==> r@ == seq![SparseStep::Pause(3), SparseStep::Terminate, SparseStep::Shutdown,
            SparseStep::Pause(2), SparseStep::Pause(1), SparseStep::SetSparse],
{
    proof {
        law_shutdown_from_third_retry(retries);
    }
    let mut v: Vec<SparseStep> = Vec::new();
    v.push(SparseStep::Pause(3));
    v.push(SparseStep::Terminate);
    if retries >= 2 {
        v.push(SparseStep::Shutdown);
        v.push(SparseStep::Pause(2));
    }
    v.push(SparseStep::Pause(1));
    v.push(SparseStep::SetSparse);
    assert(v@ =~= retry_steps(retries));
    v
}

/// The error reported when sparse mode could not be set: the command's
/// error, or `Unknown error`; none on success.
pub fn sparse_failure(result: &CommandResult) -> (r: Option<String>)
    ensures
        result.success ==> r is None,
        !result.success ==> (r matches Some(m) && m@ == match result.error {
            Some(e) => e@,
            None => "Unknown error"@,
        }),
{
    if result.success {
        None
    } else {
        match &result.error {
            Some(e) => Some(e.clone()),
            None => Some(string_of(chars_of("Unknown error").as_slice())),
        }
    }
}

/// The texts of a list of arguments.
pub open spec fn arg_texts(args: Seq<String>) -> Seq<Seq<char>> {
    args.map_values(|a: String| a@)
}

fn text(s: &str) -> (r: String)
    ensures
        r@ == s@,
{
    string_of(chars_of(s).as_slice())
}

/// The `wsl` arguments that set sparse mode of `distro`'s disk (also when
/// the disk is only restored to sparse).
pub open spec fn set_sparse_args(distro: Seq<char>) -> Seq<Seq<char>> {
    seq!["--manage"@, distro, "--set-sparse"@, "true"@, "--allow-unsafe"@]
}

/// The `wsl` arguments for one step of a retry; a pause has none.
pub open spec fn step_args(step: SparseStep, distro: Seq<char>) -> Option<Seq<Seq<char>>> {
    match step {
        SparseStep::Pause(_) => None,
        SparseStep::Terminate => Some(seq!["--terminate"@, distro]),
        SparseStep::Shutdown => Some(seq!["--shutdown"@]),
        SparseStep::SetSparse => Some(set_sparse_args(distro)),
    }
}

/// A step that the caller carries out.
pub enum WslStep {
    /// Wait this many seconds.
    Pause(u64),
    /// Run `wsl` with these arguments.
    Run(Vec<String>),
}

/// `w` carries out `step` for `distro`.
pub open spec fn carries_out(w: WslStep, step: SparseStep, distro: Seq<char>) -> bool {
    match (w, step) {
        (WslStep::Pause(a), SparseStep::Pause(b)) => a == b,
        (WslStep::Run(args), s) => step_args(s, distro) == Some(arg_texts(args@)),
        _ => false,
    }
}

/// The arguments that set sparse mode of `distro`'s disk.
pub fn set_sparse_command(distro: &str) -> (r: Vec<String>)
    ensures
        arg_texts(r@) == set_sparse_args(distro@),
{
    let mut v: Vec<String> = Vec::new();
    v.push(text("--manage"));
    v.push(text(distro));
    v.push(text("--set-sparse"));
    v.push(text("true"));
    v.push(text("--allow-unsafe"));
    assert(arg_texts(v@) =~= set_sparse_args(distro@));
    v
}

fn wsl_step(step: &SparseStep, distro: &str) -> (r: WslStep)
    ensures
        carries_out(r, *step, distro@),
{
    match step {
        SparseStep::Pause(secs) => WslStep::Pause(*secs),
        SparseStep::Terminate => {
            let mut v: Vec<String> = Vec::new();
            v.push(text("--terminate"));
            v.push(text(distro));
            assert(arg_texts(v@) =~= seq!["--terminate"@, distro@]);
            WslStep::Run(v)
        },
        SparseStep::Shutdown => {
            let mut v: Vec<String> = Vec::new();
            v.push(text("--shutdown"));
            assert(arg_texts(v@) =~= seq!["--shutdown"@]);
            WslStep::Run(v)
        },
        SparseStep::SetSparse => WslStep::Run(set_sparse_command(distro)),
    }
}

/// The first command of the sparse routine: none when sparse mode is neither
/// asked for nor was on before, else setting sparse mode.
pub fn sparse_first_command(distro: &str, enable_sparse_flag: bool, initial_is_sparse: bool) -> (r: Option<Vec<String>>)
    ensures
        !(enable_sparse_flag || initial_is_sparse) ==> r is None,
        (enable_sparse_flag || initial_is_sparse) ==> (r matches Some(a) && arg_texts(a@) == set_sparse_args(distro@)),
{
    if sparse_needed(enable_sparse_flag, initial_is_sparse) {
        Some(set_sparse_command(distro))
    } else {
        None
    }
}

/// What follows an attempt to set sparse mode.
pub enum SparseDecision {
    /// Carry out these steps; the last one sets sparse mode again, and its
    /// result is the next attempt's.
    Retry(Vec<WslStep>),
    /// The routine is over, with the error when sparse mode is not set.
    Done(Option<String>),
}

/// After attempt number `retries` (counting the retries made so far): a
/// sharing violation is retried, at most [`SPARSE_RETRIES`] times, with the
/// steps of [`retry_steps`] as `wsl` commands; otherwise the routine ends,
/// with the command's error (or `Unknown error`) when it failed.
pub fn sparse_after_attempt(distro: &str, result: &CommandResult, retries: u32) -> (r: SparseDecision)
    ensures
        (!result.success && sharing_violation(*result) && retries < SPARSE_RETRIES) ==> (r matches SparseDecision::Retry(steps)
            && steps@.len() == retry_steps(retries).len()
            && forall|i: int| 0 <= i < steps@.len() ==> carries_out(#[trigger] steps@[i], retry_steps(retries)[i], distro@)),
        !(!result.success && sharing_violation(*result) && retries < SPARSE_RETRIES) ==> (r matches SparseDecision::Done(e)
            && (result.success ==> e is None)
            && (!result.success ==> (e matches Some(m) && m@ == match result.error {
                Some(x) => x@,
                None => "Unknown error"@,
            }))),
{
    if should_retry_sparse(result, retries) {
        let plan = sparse_retry_steps(retries);
        let mut steps: Vec<WslStep> = Vec::new();
        let mut i: usize = 0;
        while i < plan.len()
            invariant
                i <= plan.len(),
                plan@ == retry_steps(retries),
                steps@.len() == i,
                forall|k: int| 0 <= k < i ==> carries_out(#[trigger] steps@[k], plan@[k], distro@),
            decreases plan.len() - i,
        {
            steps.push(wsl_step(&plan[i], distro));
            i = i + 1;
        }
        SparseDecision::Retry(steps)
    } else {
        SparseDecision::Done(sparse_failure(result))
    }
}

/// A retry waits three seconds, terminates the distribution, waits a second
/// and sets sparse mode again; only from the third retry on (number 2,
/// counting from 0) does it also shut WSL down and wait two more seconds.
pub proof fn law_shutdown_from_third_retry(retries: u32)
    ensures
        retries < 2 ==> retry_steps(retries) == seq![SparseStep::Pause(3), SparseStep::Terminate, SparseStep::Pause(1), SparseStep::SetSparse],
        retries >= 2 ==> retry_steps(retries) == seq![SparseStep::Pause(3), SparseStep::Terminate, SparseStep::Shutdown,
            SparseStep::Pause(2), SparseStep::Pause(1), SparseStep::SetSparse],
        retry_steps(retries).contains(SparseStep::Shutdown) <==> retries >= 2,
{
    let s = retry_steps(retries);
    if retries < 2 {
        assert(s =~= seq![SparseStep::Pause(3), SparseStep::Terminate, SparseStep::Pause(1), SparseStep::SetSparse]);
        if s.contains(SparseStep::Shutdown) {
            let k = choose|k: int| 0 <= k < s.len() && s[k] == SparseStep::Shutdown;
            assert(false);
        }
    } else {
        assert(s =~= seq![SparseStep::Pause(3), SparseStep::Terminate, SparseStep::Shutdown,
            SparseStep::Pause(2), SparseStep::Pause(1), SparseStep::SetSparse]);
        assert(s[2] == SparseStep::Shutdown);
    }
}

} // verus!
