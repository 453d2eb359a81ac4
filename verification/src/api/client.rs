//! Requests to the wslui web API: where they go, how the answer text is
//! cleaned and checked, and when a failed request is tried again.

use vstd::prelude::*;
use crate::constants::{API1_URL, API2_URL};
use crate::number::{push_signed_decimal, signed_decimal};
use crate::text::{chars_of, push_str, string_of, strip_leading, strip_leading_char, to_uppercase, trim, trim_chars, uppercase,
    is_white_space, lemma_trim_around};

verus! {

/// The envelope of every API answer: an error code (0 for success), a
/// message and the data.
#[derive(Debug, Clone)]
pub struct ApiResponse<T> {
    pub err: i32,
    pub msg: String,
    pub data: T,
}

/// The HTTP method of a request.
pub enum HttpMethod {
    Get,
    Post,
}

/// A request to send: method, full URL, JSON body text, timeout in seconds.
pub struct HttpRequest {
    pub method: HttpMethod,
    pub url: String,
    pub body: Option<String>,
    pub timeout_secs: u64,
}

/// The client of the two API hosts.
pub struct WslUiClient {
    api1_url: String,
    api2_url: String,
}

/// The timeout of a request that sets none.
pub const DEFAULT_TIMEOUT_SECS: u64 = 5;

/// `POST` when the method, uppercased, is `POST`; `GET` otherwise.
pub open spec fn method_for(method: Seq<char>) -> HttpMethod {
    if uppercase(method) == "POST"@ { HttpMethod::Post } else { HttpMethod::Get }
}

/// The request for `uri` on the host `base`.
pub open spec fn planned(
    r: HttpRequest,
    base: Seq<char>,
    method: Seq<char>,
    uri: Seq<char>,
    body: Option<String>,
    timeout_secs: Option<u64>,
) -> bool {
    &&& r.method == method_for(method)
    &&& r.url@ == base + uri
    &&& r.body == body
    &&& r.timeout_secs == match timeout_secs {
        Some(t) => t,
        None => DEFAULT_TIMEOUT_SECS,
    }
}

/// Picks the HTTP method named by `method`.
pub fn http_method(method: &str) -> (r: HttpMethod)
    ensures
        r == method_for(method@),
{
    let up = to_uppercase(method);
    if crate::text::str_eq(up.as_str(), "POST") {
        HttpMethod::Post
    } else {
        HttpMethod::Get
    }
}

fn plan(base: &String, method: &str, uri: &str, body: Option<String>, timeout_secs: Option<u64>) -> (r: HttpRequest)
    ensures
        planned(r, base@, method@, uri@, body, timeout_secs),
{
    let mut url = chars_of(base.as_str());
    push_str(&mut url, uri);
    let timeout: u64 = match timeout_secs {
        Some(t) => t,
        None => DEFAULT_TIMEOUT_SECS,
    };
    HttpRequest { method: http_method(method), url: string_of(url.as_slice()), body, timeout_secs: timeout }
}

impl WslUiClient {
    /// The first API host.
    pub closed spec fn api1(&self) -> Seq<char> {
        self.api1_url@
    }

    /// The second API host.
    pub closed spec fn api2(&self) -> Seq<char> {
        self.api2_url@
    }

    /// A client of the project's two API hosts.
    pub fn new() -> (r: Self)
        ensures
            r.api1() == API1_URL@,
            r.api2() == API2_URL@,
    {
        WslUiClient { api1_url: string_of(chars_of(API1_URL).as_slice()), api2_url: string_of(chars_of(API2_URL).as_slice()) }
    }

    /// The request for `uri` on the first host, with the default timeout.
    pub fn request_api1(&self, method: &str, uri: &str, body: Option<String>) -> (r: HttpRequest)
        ensures
            planned(r, self.api1(), method@, uri@, body, None),
    {
        self.request_api1_with_timeout(method, uri, body, None)
    }

    /// The request for `uri` on the first host.
    pub fn request_api1_with_timeout(&self, method: &str, uri: &str, body: Option<String>, timeout_secs: Option<u64>) -> (r: HttpRequest)
        ensures
            planned(r, self.api1(), method@, uri@, body, timeout_secs),
    {
        plan(&self.api1_url, method, uri, body, timeout_secs)
    }

    /// The request for `uri` on the second host, with the default timeout.
    pub fn request_api2(&self, method: &str, uri: &str, body: Option<String>) -> (r: HttpRequest)
        ensures
            planned(r, self.api2(), method@, uri@, body, None),
    {
        self.request_api2_with_timeout(method, uri, body, None)
    }

    /// The request for `uri` on the second host.
    pub fn request_api2_with_timeout(&self, method: &str, uri: &str, body: Option<String>, timeout_secs: Option<u64>) -> (r: HttpRequest)
        ensures
            planned(r, self.api2(), method@, uri@, body, timeout_secs),
    {
        plan(&self.api2_url, method, uri, body, timeout_secs)
    }
}

/// The answer text without leading byte-order marks and surrounding white space.
pub open spec fn cleaned(text: Seq<char>) -> Seq<char> {
    trim(strip_leading(text, '\u{FEFF}'))
}

/// Cleans an answer text before it is read as JSON.
pub fn clean_response_text(text: &str) -> (r: String)
    ensures
        r@ == cleaned(text@),
{
    let v = strip_leading_char(&chars_of(text), '\u{FEFF}');
    let t = trim_chars(&v);
    string_of(t.as_slice())
}

/// The error text for an answer with a non-zero error code.
pub open spec fn business_error(err: i32, msg: Seq<char>) -> Seq<char> {
    "API business error: err="@ + signed_decimal(err as int) + ", msg="@ + msg
}

/// Accepts an answer whose error code is 0; any other code is an error.
pub fn check_api_response<T>(resp: ApiResponse<T>) -> (r: Result<ApiResponse<T>, String>)
    ensures
        resp.err == 0 ==> r == Ok::<ApiResponse<T>, String>(resp),
        resp.err != 0 ==> (r matches Err(e) && e@ == business_error(resp.err, resp.msg@)),
{
    if resp.err != 0 {
        let mut v = chars_of("API business error: err=");
        push_signed_decimal(&mut v, resp.err as i64);
        push_str(&mut v, ", msg=");
        push_str(&mut v, resp.msg.as_str());
        assert(v@ =~= business_error(resp.err, resp.msg@));
        Err(string_of(v.as_slice()))
    } else {
        Ok(resp)
    }
}

/// What follows a request attempt.
pub enum RetryStep<R> {
    /// The request is over with this result.
    Done(Result<R, String>),
    /// Wait briefly, then send the request once more.
    Retry,
}

/// After an attempt: success ends the request; the first failure is tried
/// once more; the second failure ends it.
pub fn after_attempt<R>(first_attempt: bool, result: Result<R, String>) -> (r: RetryStep<R>)
    ensures
        result is Ok ==> r == RetryStep::Done(result),
        result is Err && first_attempt ==> r is Retry,
        result is Err && !first_attempt ==> r == RetryStep::Done(result),
{
    match result {
        Ok(v) => RetryStep::Done(Ok(v)),
        Err(e) => if first_attempt {
            RetryStep::Retry
        } else {
            RetryStep::Done(Err(e))
        },
    }
}

/// `k` byte-order marks.
pub open spec fn byte_order_marks(k: nat) -> Seq<char> {
    Seq::new(k, |i: int| '\u{FEFF}')
}

proof fn lemma_strip_marks(k: nat, t: Seq<char>)
    requires
        !(t.len() > 0 && t[0] == '\u{FEFF}'),
    ensures
        strip_leading(byte_order_marks(k) + t, '\u{FEFF}') == t,
    decreases k,
{
    let s = byte_order_marks(k) + t;
    if k == 0 {
        assert(s =~= t);
    } else {
        assert(s[0] == '\u{FEFF}');
        assert(s.drop_first() =~= byte_order_marks((k - 1) as nat) + t);
        lemma_strip_marks((k - 1) as nat, t);
    }
}

/// Byte-order marks in front of an answer and white space around it do not
/// change what is read: the cleaned text is the bare answer, the same as
/// when the answer came alone. The bare answer is already trimmed and does
/// not start with a byte-order mark.
pub proof fn law_cleaning_ignores_marks_and_space(k: nat, w1: Seq<char>, body: Seq<char>, w2: Seq<char>)
    requires
        forall|i: int| 0 <= i < w1.len() ==> is_white_space(#[trigger] w1[i]),
        forall|i: int| 0 <= i < w2.len() ==> is_white_space(#[trigger] w2[i]),
        trim(body) == body,
        !(body.len() > 0 && body[0] == '\u{FEFF}'),
    ensures
        cleaned(byte_order_marks(k) + w1 + body + w2) == body,
        cleaned(body) == body,
{
    let t = w1 + body + w2;
    if w1.len() > 0 {
        assert(t[0] == w1[0]);
        assert(is_white_space(w1[0]));
    } else if body.len() > 0 {
        assert(t[0] == body[0]);
    } else if w2.len() > 0 {
        assert(t[0] == w2[0]);
        assert(is_white_space(w2[0]));
    }
    assert(byte_order_marks(k) + w1 + body + w2 =~= byte_order_marks(k) + t);
    lemma_strip_marks(k, t);
    lemma_trim_around(w1, body, w2);
    lemma_strip_marks(0, body);
    assert(byte_order_marks(0) + body =~= body);
}

} // verus!
