//! Command-line switches: which command the arguments ask for.

use vstd::prelude::*;
use crate::constants::PROJECT_WEBSITE;
use crate::text::{chars_of, eq_ascii_nocase, eq_ignore_ascii_case, push_str, string_of};

verus! {

/// Some argument is exactly `a`.
pub open spec fn has_arg(args: Seq<String>, a: Seq<char>) -> bool {
    exists|i: int| 0 <= i < args.len() && #[trigger] args[i]@ == a
}

/// Whether some argument is exactly `a`.
pub fn any_arg(args: &Vec<String>, a: &str) -> (r: bool)
    ensures
        r == has_arg(args@, a@),
{
    let mut i: usize = 0;
    while i < args.len()
        invariant
            i <= args.len(),
            forall|j: int| 0 <= j < i ==> #[trigger] args@[j]@ != a@,
        decreases args.len() - i,
    {
        if crate::text::str_eq(args[i].as_str(), a) {
            return true;
        }
        i = i + 1;
    }
    false
}

/// The index of the first argument that is exactly `a`.
pub open spec fn arg_position(args: Seq<String>, a: Seq<char>) -> Option<int> {
    if has_arg(args, a) {
        Some(choose|i: int| 0 <= i < args.len() && args[i]@ == a && forall|j: int| 0 <= j < i ==> #[trigger] args[j]@ != a)
    } else {
        None
    }
}

/// The index of the first argument that is exactly `a`.
pub fn position_of_arg(args: &Vec<String>, a: &str) -> (r: Option<usize>)
    ensures
        match arg_position(args@, a@) {
            Some(i) => r matches Some(k) && k as int == i,
            None => r is None,
        },
{
    let mut i: usize = 0;
    while i < args.len()
        invariant
            i <= args.len(),
            forall|j: int| 0 <= j < i ==> #[trigger] args@[j]@ != a@,
        decreases args.len() - i,
    {
        if crate::text::str_eq(args[i].as_str(), a) {
            proof {
                let w = choose|k: int| 0 <= k < args@.len() && args@[k]@ == a@
                    && forall|j: int| 0 <= j < k ==> #[trigger] args@[j]@ != a@;
                assert(args@[i as int]@ == a@);
                if w > i {
                    assert(args@[i as int]@ != a@);
                }
            }
            return Some(i);
        }
        i = i + 1;
    }
    None
}

/// A command answered before any other start-up work.
pub enum ImmediateCommand {
    /// Print the version.
    Version,
    /// Print the usage text.
    Help,
}

/// The arguments ask for the version.
pub open spec fn asks_version(args: Seq<String>) -> bool {
    has_arg(args, "/version"@) || has_arg(args, "-v"@) || has_arg(args, "--version"@)
}

/// The arguments ask for help.
pub open spec fn asks_help(args: Seq<String>) -> bool {
    has_arg(args, "/help"@) || has_arg(args, "-h"@) || has_arg(args, "--help"@) || has_arg(args, "/?"@)
}

/// The command to answer at once: the version before help; none otherwise.
pub fn handle_immediate_commands(args: &Vec<String>) -> (r: Option<ImmediateCommand>)
    ensures
        asks_version(args@) ==> r == Some(ImmediateCommand::Version),
        !asks_version(args@) && asks_help(args@) ==> r == Some(ImmediateCommand::Help),
        !asks_version(args@) && !asks_help(args@) ==> r is None,
        has_arg(args@, "--version"@) || has_arg(args@, "/version"@) || has_arg(args@, "-v"@)
            ==> r == Some(ImmediateCommand::Version),
        !(has_arg(args@, "--version"@) || has_arg(args@, "/version"@) || has_arg(args@, "-v"@))
            && (has_arg(args@, "--help"@) || has_arg(args@, "/help"@) || has_arg(args@, "-h"@) || has_arg(args@, "/?"@))
            ==> r == Some(ImmediateCommand::Help),
        r == Some(ImmediateCommand::Version) ==> has_arg(args@, "--version"@) || has_arg(args@, "/version"@) || has_arg(args@, "-v"@),
{
    proof {
        law_immediate_switches(args@);
    }
    if any_arg(args, "/version") || any_arg(args, "-v") || any_arg(args, "--version") {
        return Some(ImmediateCommand::Version);
    }
    if any_arg(args, "/help") || any_arg(args, "-h") || any_arg(args, "--help") || any_arg(args, "/?") {
        return Some(ImmediateCommand::Help);
    }
    None
}

/// The usage text for `version`, one line per element.
pub open spec fn help_lines(version: Seq<char>) -> Seq<Seq<char>> {
    seq![
        ""@,
        "WSL Dashboard v"@ + version + " ("@ + PROJECT_WEBSITE@ + ")"@,
        "Usage: wsldashboard.exe [options]"@,
        ""@,
        "Options:"@,
        "  /initialize   Initialize Task Scheduler tasks and helper scripts (Requires UAC)"@,
        "  /clean [/all] Clean up system-level configurations (Uninstall mode)"@,
        "                Append /all to also delete the ~/.wsldashboard directory"@,
        "  /silent       Start the application minimized to the system tray"@,
        "  /scheduler    Auto-start distros,USB auto-connect,port forwarding (Internal use)"@,
        "  /version, -v  Show version information"@,
        "  /help, -h     Show this help message"@,
        ""@,
    ]
}

/// The usage text for `version`, one line per element.
pub fn help_text(version: &str) -> (r: Vec<String>)
    ensures
        r@.map_values(|s: String| s@) == help_lines(version@),
{
    let mut title = chars_of("WSL Dashboard v");
    push_str(&mut title, version);
    push_str(&mut title, " (");
    push_str(&mut title, PROJECT_WEBSITE);
    push_str(&mut title, ")");
    let mut r: Vec<String> = Vec::new();
    r.push(string_of(chars_of("").as_slice()));
    r.push(string_of(title.as_slice()));
    r.push(string_of(chars_of("Usage: wsldashboard.exe [options]").as_slice()));
    r.push(string_of(chars_of("").as_slice()));
    r.push(string_of(chars_of("Options:").as_slice()));
    r.push(string_of(chars_of("  /initialize   Initialize Task Scheduler tasks and helper scripts (Requires UAC)").as_slice()));
    r.push(string_of(chars_of("  /clean [/all] Clean up system-level configurations (Uninstall mode)").as_slice()));
    r.push(string_of(chars_of("                Append /all to also delete the ~/.wsldashboard directory").as_slice()));
    r.push(string_of(chars_of("  /silent       Start the application minimized to the system tray").as_slice()));
    r.push(string_of(chars_of("  /scheduler    Auto-start distros,USB auto-connect,port forwarding (Internal use)").as_slice()));
    r.push(string_of(chars_of("  /version, -v  Show version information").as_slice()));
    r.push(string_of(chars_of("  /help, -h     Show this help message").as_slice()));
    r.push(string_of(chars_of("").as_slice()));
    assert(r@.map_values(|s: String| s@) =~= help_lines(version@));
    r
}

/// The version line: `v` and the version.
pub fn version_text(version: &str) -> (r: String)
    ensures
        r@ == "v"@ + version@,
{
    let mut v = chars_of("v");
    push_str(&mut v, version);
    string_of(v.as_slice())
}

/// A command that needs the configuration and logging.
pub enum ContextCommand {
    /// Run the scheduled tasks; the index of the `/scheduler` argument.
    Scheduler(usize),
    /// Remove system-level settings; also delete the data directory when `/all` is given.
    Clean(bool),
    /// Register the scheduled task and helper scripts.
    Initialize,
}

/// The command after start-up: `/scheduler` first, then `/clean`, then
/// `/initialize`; none otherwise.
pub fn handle_context_commands(args: &Vec<String>) -> (r: Option<ContextCommand>)
    ensures
        match arg_position(args@, "/scheduler"@) {
            Some(i) => r matches Some(ContextCommand::Scheduler(k)) && k as int == i,
            None => if has_arg(args@, "/clean"@) {
                r == Some(ContextCommand::Clean(has_arg(args@, "/all"@)))
            } else if has_arg(args@, "/initialize"@) {
                r == Some(ContextCommand::Initialize)
            } else {
                r is None
            },
        },
{
    if let Some(pos) = position_of_arg(args, "/scheduler") {
        return Some(ContextCommand::Scheduler(pos));
    }
    if any_arg(args, "/clean") {
        return Some(ContextCommand::Clean(any_arg(args, "/all")));
    }
    if any_arg(args, "/initialize") {
        return Some(ContextCommand::Initialize);
    }
    None
}

/// Some argument is `/silent`, ignoring ASCII case.
pub open spec fn asks_silent(args: Seq<String>) -> bool {
    exists|i: int| 0 <= i < args.len() && eq_ascii_nocase(#[trigger] args[i]@, "/silent"@)
}

/// Whether the application starts minimised to the tray.
pub fn is_silent_mode(args: &Vec<String>) -> (r: bool)
    ensures
        r == asks_silent(args@),
{
    let silent = chars_of("/silent");
    let mut i: usize = 0;
    while i < args.len()
        invariant
            i <= args.len(),
            silent@ == "/silent"@,
            forall|j: int| 0 <= j < i ==> !eq_ascii_nocase(#[trigger] args@[j]@, "/silent"@),
        decreases args.len() - i,
    {
        if eq_ignore_ascii_case(&chars_of(args[i].as_str()), &silent) {
            return true;
        }
        i = i + 1;
    }
    false
}

/// The version is asked for exactly by one of the arguments `--version`,
/// `/version` or `-v`, and help exactly by `--help`, `/help`, `-h` or `/?`.
pub proof fn law_immediate_switches(args: Seq<String>)
    ensures
        asks_version(args) <==> (has_arg(args, "--version"@) || has_arg(args, "/version"@) || has_arg(args, "-v"@)),
        asks_help(args) <==> (has_arg(args, "--help"@) || has_arg(args, "/help"@) || has_arg(args, "-h"@) || has_arg(args, "/?"@)),
{
}

} // verus!
