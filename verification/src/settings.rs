//! Saving a distribution's settings: checking the entered paths and start-up
//! script, and writing the keep-alive start-up script.

use vstd::prelude::*;
use crate::constants::WSL_INIT_SCRIPT;
use crate::network::rules::{elevation_refused, is_elevation_refusal};
use crate::text::{chars_of, push_chars, push_str, string_of, trim, trim_chars};

verus! {

/// Why a settings field is refused.
pub enum SettingsError {
    /// The directory does not exist in the distribution.
    PathNotFound,
    /// The dashboard's own init script cannot be the start-up script.
    StartupScriptForbidden,
    /// The start-up script does not exist.
    ScriptNotFound,
    /// The start-up script is not executable.
    ScriptNotExecutable,
}

impl SettingsError {
    /// The key of the translated message.
    pub fn message_key(&self) -> (r: String)
        ensures
            r@ == match *self {
                SettingsError::PathNotFound => "dialog.path_not_found"@,
                SettingsError::StartupScriptForbidden => "dialog.startup_script_forbidden"@,
                SettingsError::ScriptNotFound => "dialog.script_not_found"@,
                SettingsError::ScriptNotExecutable => "dialog.script_not_executable"@,
            },
    {
        let k = match self {
            SettingsError::PathNotFound => "dialog.path_not_found",
            SettingsError::StartupScriptForbidden => "dialog.startup_script_forbidden",
            SettingsError::ScriptNotFound => "dialog.script_not_found",
            SettingsError::ScriptNotExecutable => "dialog.script_not_executable",
        };
        string_of(chars_of(k).as_slice())
    }
}

/// What to check of the start-up script.
pub enum ScriptCheck {
    /// Start-up is off or no script is given: nothing to check.
    Skip,
    /// The script is the dashboard's own init script.
    Forbidden,
    /// Check that this (trimmed) path exists and is executable.
    Inspect(String),
}

/// What [`startup_script_check`] decides.
pub open spec fn script_check_for(autostart: bool, script: Seq<char>, c: ScriptCheck) -> bool {
    if autostart && trim(script).len() > 0 {
        if trim(script) == WSL_INIT_SCRIPT@ {
            c is Forbidden
        } else {
            c matches ScriptCheck::Inspect(p) && p@ == trim(script)
        }
    } else {
        c is Skip
    }
}

/// Decides how to check the start-up script.
pub fn startup_script_check(autostart: bool, startup_script: &str) -> (r: ScriptCheck)
    ensures
        script_check_for(autostart, startup_script@, r),
{
    let t = trim_chars(&chars_of(startup_script));
    if !autostart || t.len() == 0 {
        return ScriptCheck::Skip;
    }
    let init = chars_of(WSL_INIT_SCRIPT);
    if t.len() == init.len() && crate::text::starts_with(&t, &init) {
        assert(t@ =~= init@);
        ScriptCheck::Forbidden
    } else {
        assert(t@ != init@) by {
            if t@ == init@ {
                assert(t@.take(init@.len() as int) =~= init@);
            }
        }
        ScriptCheck::Inspect(string_of(t.as_slice()))
    }
}

/// The error for the start-up script, given its check and, when it was
/// inspected, whether it exists and is executable.
pub fn startup_script_error(check: &ScriptCheck, exists: bool, executable: bool) -> (r: Option<SettingsError>)
    ensures
        match *check {
            ScriptCheck::Skip => r is None,
            ScriptCheck::Forbidden => r == Some(SettingsError::StartupScriptForbidden),
            ScriptCheck::Inspect(_) => if !exists {
                r == Some(SettingsError::ScriptNotFound)
            } else if !executable {
                r == Some(SettingsError::ScriptNotExecutable)
            } else {
                r is None
            },
        },
{
    match check {
        ScriptCheck::Skip => None,
        ScriptCheck::Forbidden => Some(SettingsError::StartupScriptForbidden),
        ScriptCheck::Inspect(_) => if !exists {
            Some(SettingsError::ScriptNotFound)
        } else if !executable {
            Some(SettingsError::ScriptNotExecutable)
        } else {
            None
        },
    }
}

/// The error of a directory field: it must exist.
pub fn path_error(exists: bool) -> (r: Option<SettingsError>)
    ensures
        exists ==> r is None,
        !exists ==> r == Some(SettingsError::PathNotFound),
{
    if exists { None } else { Some(SettingsError::PathNotFound) }
}

/// A distribution in the list, and whether it is the default one.
pub struct DistroEntry {
    pub name: String,
    pub is_default: bool,
}

/// The distribution `name` is listed as the default.
pub open spec fn is_default_in(distros: Seq<DistroEntry>, name: Seq<char>) -> bool {
    exists|i: int| 0 <= i < distros.len() && #[trigger] distros[i].name@ == name && distros[i].is_default
}

/// Whether the distribution `name` is already the default.
pub fn was_default(distros: &Vec<DistroEntry>, name: &str) -> (r: bool)
    ensures
        r == is_default_in(distros@, name@),
{
    let mut i: usize = 0;
    while i < distros.len()
        invariant
            i <= distros.len(),
            forall|j: int| 0 <= j < i ==> !(#[trigger] distros@[j].name@ == name@ && distros@[j].is_default),
        decreases distros.len() - i,
    {
        if distros[i].is_default && crate::text::str_eq(distros[i].name.as_str(), name) {
            return true;
        }
        i = i + 1;
    }
    false
}

/// Whether to make the distribution the default: asked for and not already so.
pub fn should_set_default(is_default: bool, was_default: bool) -> (r: bool)
    ensures
        r == (is_default && !was_default),
{
    is_default && !was_default
}

/// The start-up script written into the distribution, with `\n` written as
/// the two characters backslash and `n` (for `printf`): it runs the user's
/// script in the background when one is given, then keeps the distribution
/// alive.
pub open spec fn autostart_script_text(user_script: Seq<char>) -> Seq<char> {
    "#! /bin/sh\\n\\n"@
        + (if trim(user_script).len() > 0 {
            "# Execute user script in background\\n"@ + "( "@ + trim(user_script) + " ) > /dev/null 2>&1 &\\n\\n"@
        } else {
            Seq::<char>::empty()
        })
        + "# WSL Dashboard Keep-alive\\n"@ + "exec sleep infinity\\n"@
}

/// The start-up script for the user's script.
pub fn autostart_script(startup_script: &str) -> (r: String)
    ensures
        r@ == autostart_script_text(startup_script@),
{
    let mut v = chars_of("#! /bin/sh\\n\\n");
    let t = trim_chars(&chars_of(startup_script));
    if t.len() > 0 {
        push_str(&mut v, "# Execute user script in background\\n");
        push_str(&mut v, "( ");
        push_chars(&mut v, &t);
        push_str(&mut v, " ) > /dev/null 2>&1 &\\n\\n");
    }
    push_str(&mut v, "# WSL Dashboard Keep-alive\\n");
    push_str(&mut v, "exec sleep infinity\\n");
    assert(v@ =~= autostart_script_text(startup_script@));
    string_of(v.as_slice())
}

/// The shell command that writes the start-up script to the init script
/// path and makes it executable.
pub fn autostart_setup_command(script_content: &str) -> (r: String)
    ensures
        r@ == "printf '"@ + script_content@ + "' > "@ + WSL_INIT_SCRIPT@ + " && chmod +x "@ + WSL_INIT_SCRIPT@,
{
    let mut v = chars_of("printf '");
    push_str(&mut v, script_content);
    push_str(&mut v, "' > ");
    push_str(&mut v, WSL_INIT_SCRIPT);
    push_str(&mut v, " && chmod +x ");
    push_str(&mut v, WSL_INIT_SCRIPT);
    assert(v@ =~= "printf '"@ + script_content@ + "' > "@ + WSL_INIT_SCRIPT@ + " && chmod +x "@ + WSL_INIT_SCRIPT@);
    string_of(v.as_slice())
}

/// The notice when registering the start-up task failed.
pub fn schedule_error_text(e: &str) -> (r: String)
    ensures
        is_elevation_refusal(e@) ==> r@ == "Operation denied (UAC)"@,
        !is_elevation_refusal(e@) ==> r@ == "Failed to schedule: "@ + e@,
{
    if elevation_refused(e) {
        string_of(chars_of("Operation denied (UAC)").as_slice())
    } else {
        let mut v = chars_of("Failed to schedule: ");
        push_str(&mut v, e);
        string_of(v.as_slice())
    }
}

/// The errors shown under the settings fields, and whether the save goes on.
pub struct SettingsReview {
    pub terminal_dir_error: Option<SettingsError>,
    pub vscode_dir_error: Option<SettingsError>,
    pub startup_script_error: Option<SettingsError>,
    pub passed: bool,
}

/// Reviews the entered settings: each field gets its error (or none), and
/// the save goes on only when no field has one.
pub fn review_settings(
    terminal_dir_exists: bool,
    vscode_dir_exists: bool,
    script_check: &ScriptCheck,
    script_exists: bool,
    script_executable: bool,
) -> (r: SettingsReview)
    ensures
        r.terminal_dir_error == (if terminal_dir_exists { None } else { Some(SettingsError::PathNotFound) }),
        r.vscode_dir_error == (if vscode_dir_exists { None } else { Some(SettingsError::PathNotFound) }),
        r.startup_script_error == match *script_check {
            ScriptCheck::Skip => None,
            ScriptCheck::Forbidden => Some(SettingsError::StartupScriptForbidden),
            ScriptCheck::Inspect(_) => if !script_exists {
                Some(SettingsError::ScriptNotFound)
            } else if !script_executable {
                Some(SettingsError::ScriptNotExecutable)
            } else {
                None
            },
        },
        r.passed == (r.terminal_dir_error is None && r.vscode_dir_error is None && r.startup_script_error is None),
{
    let terminal_dir_error = path_error(terminal_dir_exists);
    let vscode_dir_error = path_error(vscode_dir_exists);
    let startup_script_error = startup_script_error(script_check, script_exists, script_executable);
    let passed = terminal_dir_error.is_none() && vscode_dir_error.is_none() && startup_script_error.is_none();
    SettingsReview { terminal_dir_error, vscode_dir_error, startup_script_error, passed }
}

/// What saving the settings does after the review.
pub struct SavePlan {
    /// Write the distribution's settings (and close the dialog).
    pub save: bool,
    /// Make the distribution the default one.
    pub set_default: bool,
    /// The shell command that writes the start-up script, when start-up is
    /// on; the start-up task is then registered if it is missing.
    pub autostart_command: Option<String>,
}

/// The save after the review: a refused review stops everything (when the
/// settings window is open, the review applies; without it nothing was
/// reviewed and the save goes on). Otherwise the settings are written, the
/// distribution becomes the default when asked and not already so, and the
/// start-up script is written when start-up is on.
pub fn save_plan(
    window_open: bool,
    review_passed: bool,
    is_default: bool,
    was_default: bool,
    autostart: bool,
    startup_script: &str,
) -> (r: SavePlan)
    ensures
        r.save == (!window_open || review_passed),
        !r.save ==> !r.set_default && r.autostart_command is None,
        r.save ==> r.set_default == (is_default && !was_default),
        r.save && !autostart ==> r.autostart_command is None,
        r.save && autostart ==> (r.autostart_command matches Some(c) && c@ == "printf '"@
            + autostart_script_text(startup_script@) + "' > "@ + WSL_INIT_SCRIPT@ + " && chmod +x "@ + WSL_INIT_SCRIPT@),
{
    if window_open && !review_passed {
        return SavePlan { save: false, set_default: false, autostart_command: None };
    }
    let set_default = should_set_default(is_default, was_default);
    let autostart_command = if autostart {
        let script = autostart_script(startup_script);
        Some(autostart_setup_command(script.as_str()))
    } else {
        None
    };
    SavePlan { save: true, set_default, autostart_command }
}

} // verus!
