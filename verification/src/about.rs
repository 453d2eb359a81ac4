//! The About page: choosing the community group for the user's language and
//! time zone, the address of its picture, decoding the picture, and
//! fetching all this at most once per session.

use vstd::prelude::*;
use crate::api::models::OfficialGroup;
use crate::number::{decimal, push_decimal};
use crate::text::{ascii_lowercase, is_ascii_text, chars_of, contains_char, has_infix, lowercase, push_str, str_contains, string_of, to_lowercase};

verus! {

/// A language code without case and separators: lowercased, with `-` and
/// `_` removed (`zh-CN`, `zh_CN` and `zh-cn` all give `zhcn`).
pub open spec fn normalized_lang(s: Seq<char>) -> Seq<char> {
    lowercase(s).filter(|c: char| c != '-' && c != '_')
}

/// Normalises a language code.
pub fn normalize_lang(s: &str) -> (r: String)
    ensures
        r@ == normalized_lang(s@),
        is_ascii_text(s@) ==> r@ == ascii_lowercase(s@).filter(|c: char| c != '-' && c != '_'),
{
    let lower = chars_of(to_lowercase(s).as_str());
    let ghost pred = |c: char| c != '-' && c != '_';
    let mut out: Vec<char> = Vec::new();
    let mut i: usize = 0;
    assert(lower@.take(0).filter(pred) =~= Seq::<char>::empty()) by {
        reveal_with_fuel(Seq::<_>::filter, 1);
    }
    while i < lower.len()
        invariant
            i <= lower.len(),
            out@ == lower@.take(i as int).filter(pred),
            pred == (|c: char| c != '-' && c != '_'),
        decreases lower.len() - i,
    {
        let ghost t = lower@.take(i + 1);
        assert(t.drop_last() =~= lower@.take(i as int));
        assert(t.last() == lower@[i as int]);
        let c = lower[i];
        if c != '-' && c != '_' {
            out.push(c);
        }
        assert(out@ == t.filter(pred)) by {
            reveal_with_fuel(Seq::<_>::filter, 1);
        }
        i = i + 1;
    }
    assert(lower@.take(lower.len() as int) =~= lower@);
    string_of(out.as_slice())
}

/// The index of the first element that satisfies `p`.
pub open spec fn first_where<A>(s: Seq<A>, p: spec_fn(A) -> bool) -> Option<int>
    decreases s.len(),
{
    if s.len() == 0 {
        None
    } else if p(s[0]) {
        Some(0)
    } else {
        match first_where(s.drop_first(), p) {
            Some(i) => Some(i + 1),
            None => None,
        }
    }
}

/// A group for this language and time zone: both fields set and equal to
/// the user's, ignoring case (and separators in the language).
pub open spec fn specific_match(lang: Seq<char>, timezone: Seq<char>) -> spec_fn(OfficialGroup) -> bool {
    |g: OfficialGroup| g.system_language@.len() > 0 && g.timezone@.len() > 0
        && normalized_lang(g.system_language@) == normalized_lang(lang)
        && lowercase(g.timezone@) == lowercase(timezone)
}

/// A group for everybody: language and time zone both empty.
pub open spec fn general_group() -> spec_fn(OfficialGroup) -> bool {
    |g: OfficialGroup| g.system_language@.len() == 0 && g.timezone@.len() == 0
}

/// The group shown: the first matching the language and time zone, else the
/// first general one, else none.
pub open spec fn chosen_group(items: Seq<OfficialGroup>, lang: Seq<char>, timezone: Seq<char>) -> Option<int> {
    match first_where(items, specific_match(lang, timezone)) {
        Some(i) => Some(i),
        None => first_where(items, general_group()),
    }
}

proof fn lemma_first_where_step<A>(s: Seq<A>, p: spec_fn(A) -> bool, i: int)
    requires
        0 <= i < s.len(),
        forall|j: int| 0 <= j < i ==> !p(#[trigger] s[j]),
    ensures
        first_where(s, p) == (match first_where(s.skip(i), p) {
            Some(k) => Some(k + i),
            None => None::<int>,
        }),
    decreases i,
{
    if i > 0 {
        assert(!p(s[0]));
        lemma_first_where_step(s.drop_first(), p, i - 1);
        assert(s.drop_first().skip(i - 1) =~= s.skip(i));
    } else {
        assert(s.skip(0) =~= s);
    }
}

proof fn lemma_first_where_none<A>(s: Seq<A>, p: spec_fn(A) -> bool)
    requires
        forall|j: int| 0 <= j < s.len() ==> !p(#[trigger] s[j]),
    ensures
        first_where(s, p) is None,
    decreases s.len(),
{
    if s.len() > 0 {
        assert(!p(s[0]));
        assert forall|j: int| 0 <= j < s.drop_first().len() implies !p(#[trigger] s.drop_first()[j]) by {
            assert(s.drop_first()[j] == s[j + 1]);
        }
        lemma_first_where_none(s.drop_first(), p);
    }
}

fn group_matches(g: &OfficialGroup, nl: &String, nt: &String) -> (r: bool)
    ensures
        r == (g.system_language@.len() > 0 && g.timezone@.len() > 0
            && normalized_lang(g.system_language@) == nl@ && lowercase(g.timezone@) == nt@),
{
    if chars_of(g.system_language.as_str()).len() == 0 || chars_of(g.timezone.as_str()).len() == 0 {
        return false;
    }
    normalize_lang(g.system_language.as_str()) == *nl && to_lowercase(g.timezone.as_str()) == *nt
}

fn is_general(g: &OfficialGroup) -> (r: bool)
    ensures
        r == (g.system_language@.len() == 0 && g.timezone@.len() == 0),
{
    chars_of(g.system_language.as_str()).len() == 0 && chars_of(g.timezone.as_str()).len() == 0
}

/// The group to show for the user's language and time zone.
pub fn match_group<'a>(items: &'a Vec<OfficialGroup>, sys_lang: &str, timezone: &str) -> (r: Option<&'a OfficialGroup>)
    ensures
        match chosen_group(items@, sys_lang@, timezone@) {
            Some(i) => r matches Some(g) && 0 <= i < items@.len() && *g == items@[i],
            None => r is None,
        },
{
    let nl = normalize_lang(sys_lang);
    let nt = to_lowercase(timezone);
    let ghost p = specific_match(sys_lang@, timezone@);
    let ghost q = general_group();
    let mut i: usize = 0;
    while i < items.len()
        invariant
            i <= items.len(),
            nl@ == normalized_lang(sys_lang@),
            nt@ == lowercase(timezone@),
            p == specific_match(sys_lang@, timezone@),
            forall|j: int| 0 <= j < i ==> !p(#[trigger] items@[j]),
        decreases items.len() - i,
    {
        if group_matches(&items[i], &nl, &nt) {
            proof {
                lemma_first_where_step(items@, p, i as int);
                assert(items@.skip(i as int)[0] == items@[i as int]);
            }
            return Some(&items[i]);
        }
        i = i + 1;
    }
    proof {
        lemma_first_where_none(items@, p);
    }
    let mut k: usize = 0;
    while k < items.len()
        invariant
            k <= items.len(),
            q == general_group(),
            first_where(items@, specific_match(sys_lang@, timezone@)) is None,
            forall|j: int| 0 <= j < k ==> !q(#[trigger] items@[j]),
        decreases items.len() - k,
    {
        if is_general(&items[k]) {
            proof {
                lemma_first_where_step(items@, q, k as int);
                assert(items@.skip(k as int)[0] == items@[k as int]);
            }
            return Some(&items[k]);
        }
        k = k + 1;
    }
    proof {
        lemma_first_where_none(items@, q);
    }
    None
}

/// Where the group pictures are served from: a host for users in one time
/// zone and a host for everybody else.
pub struct PicHosts {
    pub zh_timezone: String,
    pub zh_base: String,
    pub default_base: String,
}

/// The picture address: `pic` itself when it already holds `http`; else
/// `pic` on the host for the time zone, with the time in seconds appended
/// as the query parameter `t`.
pub open spec fn pic_url(pic: Seq<char>, timezone: Seq<char>, now_secs: u64, hosts: PicHosts) -> Seq<char> {
    if has_infix(pic, "http"@) {
        pic
    } else {
        (if timezone == hosts.zh_timezone@ { hosts.zh_base@ } else { hosts.default_base@ }) + pic
            + (if pic.contains('?') { "&"@ } else { "?"@ }) + "t="@ + decimal(now_secs as nat)
    }
}

/// Builds the picture address; `now_secs` is the current time in seconds
/// since the Unix epoch.
pub fn build_pic_url(pic: &str, timezone: &str, now_secs: u64, hosts: &PicHosts) -> (r: String)
    ensures
        r@ == pic_url(pic@, timezone@, now_secs, *hosts),
{
    if str_contains(pic, "http") {
        return string_of(chars_of(pic).as_slice());
    }
    let mut v: Vec<char> = if crate::text::str_eq(timezone, hosts.zh_timezone.as_str()) {
        chars_of(hosts.zh_base.as_str())
    } else {
        chars_of(hosts.default_base.as_str())
    };
    push_str(&mut v, pic);
    if contains_char(&chars_of(pic), '?') {
        push_str(&mut v, "&");
    } else {
        push_str(&mut v, "?");
    }
    push_str(&mut v, "t=");
    push_decimal(&mut v, now_secs);
    assert(v@ =~= pic_url(pic@, timezone@, now_secs, *hosts));
    string_of(v.as_slice())
}

/// What decoding an image file into RGBA8 pixels gives (`image::load_from_memory`,
/// then `to_rgba8`, `dimensions` and `into_raw`): the pixel bytes, width and
/// height, or nothing when the bytes are not an image of a supported format.
pub uninterp spec fn rgba8_decoding(bytes: Seq<u8>) -> Option<(Seq<u8>, u32, u32)>;

/// `image::load_from_memory`, then `DynamicImage::to_rgba8`,
/// `ImageBuffer::dimensions` and `into_raw`. Claimed: success and the pixels,
/// width and height depend on the bytes alone and are named by
/// [`rgba8_decoding`]; a decoded buffer holds four bytes for each of the
/// width times height pixels (the decoders fill a buffer of exactly that
/// size). Which bytes decode, and the text of the error, are not stated.
#[verifier::external_body]
fn decode_rgba8(bytes: &[u8]) -> (r: Result<(Vec<u8>, u32, u32), String>)
    ensures
        match r {
            Ok((px, w, h)) => rgba8_decoding(bytes@) == Some((px@, w, h)),
            Err(_) => rgba8_decoding(bytes@) is None,
        },
        r matches Ok((px, w, h)) ==> px@.len() == 4 * w * h,
{
    match image::load_from_memory(bytes) {
        Ok(img) => {
            let rgba = img.to_rgba8();
            let (w, h) = rgba.dimensions();
            Ok((rgba.into_raw(), w, h))
        },
        Err(e) => Err(e.to_string()),
    }
}

/// Decodes a downloaded picture into RGBA8 pixel bytes with its width and
/// height: four bytes per pixel.
pub fn load_image_pixels(bytes: &Vec<u8>) -> (r: Result<(Vec<u8>, u32, u32), String>)
    ensures
        match r {
            Ok((px, w, h)) => rgba8_decoding(bytes@) == Some((px@, w, h)),
            Err(_) => rgba8_decoding(bytes@) is None,
        },
        r matches Ok((px, w, h)) ==> px@.len() == 4 * w * h,
{
    decode_rgba8(bytes.as_slice())
}

/// Whether the About page's data was already requested in this session.
pub struct AboutFetch {
    fetched: bool,
}

impl AboutFetch {
    /// The request was already made.
    pub closed spec fn was_triggered(&self) -> bool {
        self.fetched
    }

    /// Nothing requested yet.
    pub fn new() -> (r: Self)
        ensures
            !r.was_triggered(),
    {
        AboutFetch { fetched: false }
    }

    /// Whether to request the data now: only the first time.
    pub fn trigger_fetch_if_needed(&mut self) -> (r: bool)
        ensures
            r == !old(self).was_triggered(),
            final(self).was_triggered(),
    {
        let first = !self.fetched;
        self.fetched = true;
        first
    }
}

} // verus!
