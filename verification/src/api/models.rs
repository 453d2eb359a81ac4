//! Data returned by the wslui web API, with the values used when a request fails.

use vstd::prelude::*;
use crate::constants::{PROJECT_DOCS, PROJECT_REPOSITORY, VSCODE_MARKETPLACE_URL};
use crate::text::{chars_of, string_of};

verus! {

/// A string holding the text of a literal.
fn text(s: &str) -> (r: String)
    ensures
        r@ == s@,
{
    string_of(chars_of(s).as_slice())
}

/// The server's clock.
#[derive(Debug, Clone)]
pub struct TimeData {
    pub unix_time: i64,
}

impl Default for TimeData {
    fn default() -> (r: Self)
        ensures
            r.unix_time == 0,
    {
        TimeData { unix_time: 0 }
    }
}

/// The latest release of the application.
#[derive(Debug, Clone)]
pub struct ReleaseData {
    pub version: String,
    pub release_date: String,
    pub download_url: String,
}

impl Default for ReleaseData {
    /// A far-future placeholder release pointing at the project repository.
    fn default() -> (r: Self)
        ensures
            r.version@ == "10.0.0"@,
            r.release_date@ == "2100-10-10"@,
            r.download_url@ == PROJECT_REPOSITORY@,
    {
        ReleaseData { version: text("10.0.0"), release_date: text("2100-10-10"), download_url: text(PROJECT_REPOSITORY) }
    }
}

/// A community group for a language and time zone.
#[derive(Debug, Clone)]
pub struct OfficialGroup {
    pub system_language: String,
    pub timezone: String,
    pub name: String,
    pub pic: String,
}

impl Default for OfficialGroup {
    fn default() -> (r: Self)
        ensures
            r.system_language@.len() == 0,
            r.timezone@.len() == 0,
            r.name@.len() == 0,
            r.pic@.len() == 0,
    {
        OfficialGroup { system_language: String::new(), timezone: String::new(), name: String::new(), pic: String::new() }
    }
}

/// A named link of the About page.
#[derive(Debug, Clone)]
pub struct HelperAboutLink {
    pub name: String,
    pub url: String,
}

impl Default for HelperAboutLink {
    fn default() -> (r: Self)
        ensures
            r.name@.len() == 0,
            r.url@.len() == 0,
    {
        HelperAboutLink { name: String::new(), url: String::new() }
    }
}

/// The About page's data.
#[derive(Debug, Clone)]
pub struct HelperAboutData {
    pub official_group: Vec<OfficialGroup>,
    pub documents: Option<HelperAboutLink>,
    pub discussions: Option<HelperAboutLink>,
}

impl Default for HelperAboutData {
    fn default() -> (r: Self)
        ensures
            r.official_group@.len() == 0,
            r.documents is None,
            r.discussions is None,
    {
        HelperAboutData { official_group: Vec::new(), documents: None, discussions: None }
    }
}

/// The VS Code extension for WSL.
#[derive(Debug, Clone)]
pub struct VSCodeExtension {
    pub name: String,
    pub url: String,
}

impl Default for VSCodeExtension {
    fn default() -> (r: Self)
        ensures
            r.name@ == "Microsoft WSL(Identifier:ms-vscode-remote.remote-wsl)"@,
            r.url@ == VSCODE_MARKETPLACE_URL@,
    {
        VSCodeExtension {
            name: text("Microsoft WSL(Identifier:ms-vscode-remote.remote-wsl)"),
            url: text(VSCODE_MARKETPLACE_URL),
        }
    }
}

/// Help on distribution startup scripts.
#[derive(Debug, Clone)]
pub struct StartupScript {
    pub name: String,
    pub url: String,
}

impl Default for StartupScript {
    fn default() -> (r: Self)
        ensures
            r.name@ == "Distro startup script"@,
            r.url@ == PROJECT_DOCS@,
    {
        StartupScript { name: text("Distro startup script"), url: text(PROJECT_DOCS) }
    }
}

/// Help on cleaning a disk before compacting it.
#[derive(Debug, Clone)]
pub struct CompressScript {
    pub name: String,
    pub url: String,
}

impl Default for CompressScript {
    fn default() -> (r: Self)
        ensures
            r.name@ == "Linux disk cleanup"@,
            r.url@.len() == 0,
    {
        CompressScript { name: text("Linux disk cleanup"), url: String::new() }
    }
}

/// The distribution page's help data.
#[derive(Debug, Clone)]
pub struct HelperDistroData {
    pub vscode_extension: VSCodeExtension,
    pub startup_script: StartupScript,
    pub compress_script: CompressScript,
}

impl Default for HelperDistroData {
    fn default() -> (r: Self)
        ensures
            r.vscode_extension.name@ == "Microsoft WSL(Identifier:ms-vscode-remote.remote-wsl)"@,
            r.vscode_extension.url@ == VSCODE_MARKETPLACE_URL@,
            r.startup_script.name@ == "Distro startup script"@,
            r.startup_script.url@ == PROJECT_DOCS@,
            r.compress_script.name@ == "Linux disk cleanup"@,
            r.compress_script.url@.len() == 0,
    {
        HelperDistroData {
            vscode_extension: VSCodeExtension::default(),
            startup_script: StartupScript::default(),
            compress_script: CompressScript::default(),
        }
    }
}

/// A root file system download for installing a distribution.
#[derive(Debug, Clone)]
pub struct RootfsHelp {
    pub name: String,
    pub url: String,
}

impl Default for RootfsHelp {
    fn default() -> (r: Self)
        ensures
            r.name@.len() == 0,
            r.url@.len() == 0,
    {
        RootfsHelp { name: String::new(), url: String::new() }
    }
}

/// The install page's help data.
#[derive(Debug, Clone)]
pub struct HelperInstallData {
    pub rootfs_help: Vec<RootfsHelp>,
}

impl Default for HelperInstallData {
    fn default() -> (r: Self)
        ensures
            r.rootfs_help@.len() == 0,
    {
        HelperInstallData { rootfs_help: Vec::new() }
    }
}

} // verus!
