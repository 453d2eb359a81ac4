//! Reading and changing `~/.wslconfig`: the networking mode and the sparse
//! disk setting. The file's text comes from the caller; the INI format is
//! read and written by the `rust-ini` crate.

use vstd::prelude::*;
use ini::Ini;
use crate::text::{
    ascii_lowercase, ascii_uppercase, chars_of, is_ascii_text, lowercase, string_of, to_lowercase, to_uppercase, uppercase,
};

verus! {

/// The INI document type of the `rust-ini` crate, held opaque.
#[verifier::external_type_specification]
#[verifier::external_body]
pub struct ExIni(Ini);

/// The values an INI document gives: for a section name (`None` for the
/// general section) and a key, the first value of that key in the first
/// section of that name.
pub uninterp spec fn ini_entries(ini: Ini) -> Map<(Option<Seq<char>>, Seq<char>), Seq<char>>;

/// What `Ini::load_from_str` gives for a text: the values of the document,
/// or nothing when the text is not valid INI.
pub uninterp spec fn parsed_ini_entries(text: Seq<char>) -> Option<Map<(Option<Seq<char>>, Seq<char>), Seq<char>>>;

/// `Ini::load_from_str`. Claimed: whether the text parses, and the values of
/// the document read, depend on the text alone and are named by
/// [`parsed_ini_entries`]; the INI grammar is not written out.
#[verifier::external_body]
fn ini_load(text: &str) -> (r: Option<Ini>)
    ensures
        match r {
            Some(i) => parsed_ini_entries(text@) == Some(ini_entries(i)),
            None => parsed_ini_entries(text@) is None,
        },
{
    Ini::load_from_str(text).ok()
}

/// `Ini::new`. Claimed: the document holds no values.
#[verifier::external_body]
fn ini_new() -> (r: Ini)
    ensures
        ini_entries(r).dom().is_empty(),
{
    Ini::new()
}

/// `Ini::section` then `Properties::get`. Claimed: the result is the value
/// that [`ini_entries`] holds for (`section`, `key`), and none exactly when it
/// holds none (this lookup is what [`ini_entries`] stands for).
#[verifier::external_body]
fn ini_get(ini: &Ini, section: &str, key: &str) -> (r: Option<String>)
    ensures
        match r {
            Some(v) => ini_entries(*ini).contains_key((Some(section@), key@))
                && ini_entries(*ini)[(Some(section@), key@)] == v@,
            None => !ini_entries(*ini).contains_key((Some(section@), key@)),
        },
{
    match ini.section(Some(section)) {
        Some(props) => props.get(key).map(|v| v.to_string()),
        None => None,
    }
}

/// `Ini::with_section(..).set(..)`. Claimed, as the crate's source shows
/// (the first section of that name, created when missing, gets the key with
/// all its values replaced by this one): the value for (`section`, `key`)
/// becomes `value` and every other value stays.
#[verifier::external_body]
fn ini_set(ini: &mut Ini, section: &str, key: &str, value: &str)
    ensures
        ini_entries(*final(ini)) == ini_entries(*old(ini)).insert((Some(section@), key@), value@),
{
    ini.with_section(Some(section)).set(key, value);
}

/// The text that `Ini::write_to_opt` writes for a document with the default
/// escape policy and `=` between key and value, ending each line with
/// `line_separator`: every section in order, its header in brackets (none for
/// the general section), one `key=value` line per entry, and an empty line
/// before each section with entries after the first such section.
pub uninterp spec fn ini_written(ini: Ini, line_separator: Seq<char>) -> Seq<char>;

/// `Ini::write_to` into a byte buffer, read as UTF-8 (the bytes are the UTF-8
/// of strings, so nothing is replaced). Claimed: the text is what
/// [`ini_written`] names for this document, with a line separator of `"\n"`
/// or of `"\r\n"`; the crate picks the one by the target system when it is
/// built. Not stated: the writing rules themselves (escapes included), and
/// that reading the text back gives the same values (some characters in keys
/// and values are written unescaped).
#[verifier::external_body]
fn ini_text(ini: &Ini) -> (r: String)
    ensures
        r@ == ini_written(*ini, "\n"@) || r@ == ini_written(*ini, "\r\n"@),
{
    let mut buf: Vec<u8> = Vec::new();
    let _ = ini.write_to(&mut buf);
    String::from_utf8_lossy(&buf).into_owned()
}

/// A text without one leading byte-order mark, as `Ini::load_from_file` reads a file.
pub open spec fn without_bom(t: Seq<char>) -> Seq<char> {
    if t.len() > 0 && t[0] == '\u{FEFF}' { t.drop_first() } else { t }
}

fn drop_bom(t: &str) -> (r: String)
    ensures
        r@ == without_bom(t@),
{
    let v = chars_of(t);
    if v.len() > 0 && v[0] == '\u{FEFF}' {
        let mut w: Vec<char> = Vec::new();
        let mut i: usize = 1;
        while i < v.len()
            invariant
                1 <= i <= v.len(),
                w@ == v@.subrange(1, i as int),
            decreases v.len() - i,
        {
            w.push(v[i]);
            i = i + 1;
        }
        assert(w@ =~= v@.drop_first());
        string_of(w.as_slice())
    } else {
        string_of(v.as_slice())
    }
}

/// The values of the configuration file: none when it is missing or not
/// valid INI.
pub open spec fn config_entries(text: Option<Seq<char>>) -> Option<Map<(Option<Seq<char>>, Seq<char>), Seq<char>>> {
    match text {
        Some(t) => parsed_ini_entries(without_bom(t)),
        None => None,
    }
}

/// The key of the networking mode.
pub open spec fn mode_key() -> (Option<Seq<char>>, Seq<char>) {
    (Some("wsl2"@), "networkingMode"@)
}

/// The key of the sparse disk setting.
pub open spec fn sparse_key() -> (Option<Seq<char>>, Seq<char>) {
    (Some("experimental"@), "sparseVhd"@)
}

/// The networking mode: the lowercased `networkingMode` of section `wsl2`,
/// or `nat` when the file, its text or the setting is missing.
pub open spec fn networking_mode(text: Option<Seq<char>>) -> Seq<char> {
    match config_entries(text) {
        Some(m) => if m.contains_key(mode_key()) { lowercase(m[mode_key()]) } else { "nat"@ },
        None => "nat"@,
    }
}

/// The networking mode from the text of `~/.wslconfig` (`None` when the
/// file is missing or unreadable).
pub fn get_wsl_networking_mode(config_text: Option<&str>) -> (r: String)
    ensures
        r@ == networking_mode(match config_text { Some(t) => Some(t@), None => None }),
        match config_entries(match config_text { Some(t) => Some(t@), None => None }) {
            Some(m) => m.contains_key(mode_key()) && is_ascii_text(m[mode_key()]) ==> r@ == ascii_lowercase(m[mode_key()]),
            None => true,
        },
{
    let default_mode = string_of(chars_of("nat").as_slice());
    match config_text {
        Some(t) => match ini_load(drop_bom(t).as_str()) {
            Some(ini) => match ini_get(&ini, "wsl2", "networkingMode") {
                Some(mode) => to_lowercase(mode.as_str()),
                None => default_mode,
            },
            None => default_mode,
        },
        None => default_mode,
    }
}

/// The networking mode as the network page shows it: upper case.
pub fn networking_mode_label(config_text: Option<&str>) -> (r: String)
    ensures
        r@ == uppercase(networking_mode(match config_text { Some(t) => Some(t@), None => None })),
        is_ascii_text(networking_mode(match config_text { Some(t) => Some(t@), None => None }))
            ==> r@ == ascii_uppercase(networking_mode(match config_text { Some(t) => Some(t@), None => None })),
{
    let mode = get_wsl_networking_mode(config_text);
    to_uppercase(mode.as_str())
}

/// Sparse disks are on: `sparseVhd` of section `experimental` is `true` in
/// any case.
pub open spec fn sparse_enabled(m: Map<(Option<Seq<char>>, Seq<char>), Seq<char>>) -> bool {
    m.contains_key(sparse_key()) && lowercase(m[sparse_key()]) == "true"@
}

/// Whether sparse disks are on, from the text of `~/.wslconfig` (`None` when
/// the file is missing or unreadable): off when the file or the setting is
/// missing.
pub fn get_sparse_vhd(config_text: Option<&str>) -> (r: bool)
    ensures
        r == match config_entries(match config_text { Some(t) => Some(t@), None => None }) {
            Some(m) => sparse_enabled(m),
            None => false,
        },
{
    match config_text {
        Some(t) => match ini_load(drop_bom(t).as_str()) {
            Some(ini) => match ini_get(&ini, "experimental", "sparseVhd") {
                Some(v) => crate::text::str_eq(to_lowercase(v.as_str()).as_str(), "true"),
                None => false,
            },
            None => false,
        },
        None => false,
    }
}

/// The document to change: the file's when it exists and is valid INI,
/// else an empty one.
pub fn load_wsl_config(config_text: Option<&str>) -> (r: Ini)
    ensures
        ini_entries(r) == match config_entries(match config_text { Some(t) => Some(t@), None => None }) {
            Some(m) => m,
            None => Map::empty(),
        },
{
    match config_text {
        Some(t) => match ini_load(drop_bom(t).as_str()) {
            Some(ini) => ini,
            None => ini_new(),
        },
        None => ini_new(),
    }
}

/// The text written for a setting's value.
pub open spec fn bool_text(b: bool) -> Seq<char> {
    if b { "true"@ } else { "false"@ }
}

/// Sets `sparseVhd` of section `experimental` to `true` or `false`.
pub fn set_sparse_vhd(ini: &mut Ini, enable: bool)
    ensures
        ini_entries(*final(ini)) == ini_entries(*old(ini)).insert(sparse_key(), bool_text(enable)),
{
    if enable {
        ini_set(ini, "experimental", "sparseVhd", "true");
    } else {
        ini_set(ini, "experimental", "sparseVhd", "false");
    }
}

/// The text of a document as `rust-ini` writes it, with either line
/// separator that it may end lines with.
pub open spec fn written_config(ini: Ini, text: Seq<char>) -> bool {
    text == ini_written(ini, "\n"@) || text == ini_written(ini, "\r\n"@)
}

/// The INI text to write back to `~/.wslconfig`.
pub fn wsl_config_text(ini: &Ini) -> (r: String)
    ensures
        written_config(*ini, r@),
{
    ini_text(ini)
}

/// In a document's values, the sparse setting read after setting it is the
/// value set, and every other value is as before. (This is about the
/// document in memory, not about the file text written from it.)
pub proof fn law_sparse_write_then_read(m: Map<(Option<Seq<char>>, Seq<char>), Seq<char>>, enable: bool)
    ensures
        m.insert(sparse_key(), bool_text(enable)).contains_key(sparse_key()),
        m.insert(sparse_key(), bool_text(enable))[sparse_key()] == bool_text(enable),
        forall|k: (Option<Seq<char>>, Seq<char>)| k != sparse_key() ==> (#[trigger] m.insert(sparse_key(), bool_text(enable)).contains_key(k) <==> m.contains_key(k)),
{
}

} // verus!
