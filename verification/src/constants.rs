//! Names, addresses and paths of the application.

use vstd::prelude::*;
use crate::text::{ascii_lowercase, chars_of, has_prefix, is_ascii_text, lowercase, starts_with, to_lowercase};

verus! {

pub const APP_NAME: &'static str = "WSL Dashboard";
pub const APP_ID: &'static str = "wsldashboard";
pub const COMPANY_NAME: &'static str = APP_NAME;
pub const LEGAL_COPYRIGHT: &'static str = "2026 WSL Dashboard. All rights reserved.";
pub const PROJECT_REPOSITORY: &'static str = "https://github.com/owu/wsl-dashboard";
pub const PROJECT_WEBSITE: &'static str = "https://www.wslui.com";
pub const GITHUB_ISSUES: &'static str = "/issues";
pub const GITHUB_RELEASES: &'static str = "/releases";
pub const GITHUB_DOMAIN: &'static str = "https://github.com";
pub const WSL_GITHUB_RELEASES: &'static str = "https://github.com/microsoft/WSL/releases/latest";
pub const VSCODE_MARKETPLACE_URL: &'static str = "https://marketplace.visualstudio.com";
pub const PROJECT_DOCS: &'static str = "https://docs.wslui.com";
pub const API1_URL: &'static str = "https://api1.wslui.com";
pub const API2_URL: &'static str = "https://api2.wslui.com";
pub const FONT_ZH: &'static str = "Microsoft YaHei UI";
pub const FONT_EN_FALLBACK: &'static str = "Segoe UI, Microsoft YaHei UI";
pub const WSL_INIT_SCRIPT: &'static str = "/etc/init.wsl-dashboard";

/// The language code names Chinese: its lowercase form starts with `zh`.
pub fn is_chinese_lang(lang: &str) -> (r: bool)
    ensures
        r == has_prefix(lowercase(lang@), "zh"@),
        is_ascii_text(lang@) ==> r == has_prefix(ascii_lowercase(lang@), "zh"@),
{
    let lower = to_lowercase(lang);
    starts_with(&chars_of(lower.as_str()), &chars_of("zh"))
}

} // verus!
