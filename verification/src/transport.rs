//! Transport-level errors and helpers shared by the HTTP providers: endpoint URL
//! resolution and the checks made on a streaming response.
use vstd::prelude::*;

use vstd::string::*;
use vstd::utf8::encode_utf8;

use crate::chat::opt_view;
use crate::num::{decimal, format_decimal};
use crate::text::{append_str, chars_of, has_prefix, owned, push_char, string_from_chars};

verus! {

/// Errors of the HTTP and event-stream transport. The outside errors the
/// transport wraps are kept as their displayed text.
#[derive(Clone, Debug, PartialEq, Eq)]
pub enum TransportError {
    /// The client configuration is invalid.
    InvalidConfig(&'static str),
    /// The HTTP client could not be built.
    BuildClient(String),
    /// The request failed.
    Transport(String),
    /// A non-success HTTP status, with the response body.
    HttpStatus { status: u16, body: String },
    /// A streamed chunk could not be deserialized.
    Deserialize { source: String, body: String },
    /// A streamed event was not valid UTF-8.
    Utf8(String),
    /// A response body exceeded the size limit.
    BodyTooLarge { limit: usize },
    /// The response was malformed.
    InvalidResponse(String),
}

/// The text of a [`TransportError`].
pub open spec fn transport_error_message(e: TransportError) -> Seq<char> {
    match e {
        TransportError::InvalidConfig(m) => "invalid configuration: "@ + m@,
        TransportError::BuildClient(m) => "failed to build http client: "@ + m@,
        TransportError::Transport(m) => "request failed: "@ + m@,
        TransportError::HttpStatus { status, body } => "api returned "@ + decimal(status as nat),
        TransportError::Deserialize { source, body } => "failed to deserialize response body: "@
            + source@,
        TransportError::Utf8(m) => "failed to decode streamed response as UTF-8: "@ + m@,
        TransportError::BodyTooLarge { limit } => "response body exceeded "@ + decimal(
            limit as nat,
        ) + "-byte limit"@,
        TransportError::InvalidResponse(m) => "invalid response: "@ + m@,
    }
}

impl TransportError {
    /// The error's text.
    pub fn message(&self) -> (r: String)
        ensures
            r@ == transport_error_message(*self),
    {
        match self {
            TransportError::InvalidConfig(m) => {
                let mut r = owned("invalid configuration: ");
                append_str(&mut r, m);
                r
            },
            TransportError::BuildClient(m) => {
                let mut r = owned("failed to build http client: ");
                append_str(&mut r, m.as_str());
                r
            },
            TransportError::Transport(m) => {
                let mut r = owned("request failed: ");
                append_str(&mut r, m.as_str());
                r
            },
            TransportError::HttpStatus { status, body } => {
                let mut r = owned("api returned ");
                let d = format_decimal(*status as u64);
                append_str(&mut r, d.as_str());
                r
            },
            TransportError::Deserialize { source, body } => {
                let mut r = owned("failed to deserialize response body: ");
                append_str(&mut r, source.as_str());
                r
            },
            TransportError::Utf8(m) => {
                let mut r = owned("failed to decode streamed response as UTF-8: ");
                append_str(&mut r, m.as_str());
                r
            },
            TransportError::BodyTooLarge { limit } => {
                let mut r = owned("response body exceeded ");
                let d = format_decimal(*limit as u64);
                append_str(&mut r, d.as_str());
                append_str(&mut r, "-byte limit");
                r
            },
            TransportError::InvalidResponse(m) => {
                let mut r = owned("invalid response: ");
                append_str(&mut r, m.as_str());
                r
            },
        }
    }
}

// ---------------------------------------------------------------------------
// Endpoint URLs
// ---------------------------------------------------------------------------

/// The serialization of the absolute URL `reqwest::Url::parse` reads from
/// `input`, or `None` when it reads none.
pub uninterp spec fn parsed_url(input: Seq<char>) -> Option<Seq<char>>;

/// `reqwest::Url::parse`: the serialization of the parsed URL. A serialization
/// parses back to itself (the crate's `Url::check_invariants` asserts exactly
/// this of every URL).
#[verifier::external_body]
fn parse_url(input: &str) -> (r: Option<String>)
    ensures
        opt_view(r) == parsed_url(input@),
        r matches Some(u) ==> parsed_url(u@) == Some(u@),
{
    match reqwest::Url::parse(input) {
        Ok(url) => Some(url.into()),
        Err(_) => None,
    }
}

/// The path of the URL serialized as `url` (`reqwest::Url::path`), or nothing when
/// `url` is not a URL.
pub uninterp spec fn url_path_of(url: Seq<char>) -> Seq<char>;

/// `reqwest::Url::path` of the URL serialized as `url`.
#[verifier::external_body]
fn url_path(url: &str) -> (r: String)
    ensures
        r@ == url_path_of(url@),
{
    match reqwest::Url::parse(url) {
        Ok(u) => u.path().to_owned(),
        Err(_) => String::new(),
    }
}

/// The serialization of the URL serialized as `url` after `set_path(path)`
/// (`url` itself when it is not a URL).
pub uninterp spec fn url_with_path(url: Seq<char>, path: Seq<char>) -> Seq<char>;

/// The number of bytes of `c` in UTF-8.
pub open spec fn utf8_len(c: char) -> nat {
    if (c as u32) < 0x80 {
        1
    } else if (c as u32) < 0x800 {
        2
    } else if (c as u32) < 0x10000 {
        3
    } else {
        4
    }
}

/// The number of bytes of `s` in UTF-8.
pub open spec fn utf8_bytes(s: Seq<char>) -> nat
    decreases s.len(),
{
    if s.len() == 0 {
        0
    } else {
        utf8_bytes(s.drop_last()) + utf8_len(s.last())
    }
}

/// Whether the `url` crate writes `c` into a path as it is: printable ASCII
/// outside its `PATH` percent-encode set.
pub open spec fn path_keeps(c: char) -> bool {
    &&& 0x21 <= (c as u32) <= 0x7e
    &&& c != '"' && c != '#' && c != '<' && c != '>' && c != '`'
    &&& c != '?' && c != '{' && c != '}'
}

/// An upper bound on the bytes `path` takes once the `url` crate has
/// percent-encoded it: one for a character it keeps, three per UTF-8 byte of any
/// other.
pub open spec fn encoded_path_len(path: Seq<char>) -> nat
    decreases path.len(),
{
    if path.len() == 0 {
        0
    } else {
        encoded_path_len(path.drop_last()) + if path_keeps(path.last()) {
            1
        } else {
            3 * utf8_len(path.last())
        }
    }
}

/// Whether setting `path` on the URL serialized as `url` stays within the 4 GiB
/// (`u32`) size the `url` crate indexes its serialization with: the serialization
/// loses its old path and gains the encoded new one (and at most a short prefix).
pub open spec fn path_fits(url: Seq<char>, path: Seq<char>) -> bool {
    utf8_bytes(url) - utf8_bytes(url_path_of(url)) + encoded_path_len(path) + 8 < u32::MAX
}

/// `reqwest::Url::set_path` on the URL serialized as `url`. `url` is a URL's own
/// serialization, so parsing it gives that serialization back, and `path_fits`
/// keeps the new serialization within the size whose overflow the crate does not
/// survive.
#[verifier::external_body]
fn set_url_path(url: &str, path: &str) -> (r: String)
    requires
        parsed_url(url@) == Some(url@),
        path_fits(url@, path@),
    ensures
        r@ == url_with_path(url@, path@),
{
    match reqwest::Url::parse(url) {
        Ok(mut u) => {
            u.set_path(path);
            u.into()
        },
        Err(_) => url.to_owned(),
    }
}

/// The UTF-8 length of `s`.
fn utf8_byte_count(s: &Vec<char>) -> (r: u128)
    ensures
        r == utf8_bytes(s@),
        r <= 4 * s@.len(),
{
    let mut acc: u128 = 0;
    let mut i: usize = 0;
    while i < s.len()
        invariant
            0 <= i <= s@.len(),
            acc == utf8_bytes(s@.take(i as int)),
            acc <= 4 * i,
        decreases s@.len() - i,
    {
        proof {
            assert(s@.take(i + 1).drop_last() =~= s@.take(i as int));
        }
        let c = s[i] as u32;
        let n: u128 = if c < 0x80 {
            1
        } else if c < 0x800 {
            2
        } else if c < 0x10000 {
            3
        } else {
            4
        };
        acc = acc + n;
        i = i + 1;
    }
    proof {
        assert(s@.take(s@.len() as int) =~= s@);
    }
    acc
}

/// `encoded_path_len` of `s`.
fn encoded_path_count(s: &Vec<char>) -> (r: u128)
    ensures
        r == encoded_path_len(s@),
        r <= 12 * s@.len(),
{
    let mut acc: u128 = 0;
    let mut i: usize = 0;
    while i < s.len()
        invariant
            0 <= i <= s@.len(),
            acc == encoded_path_len(s@.take(i as int)),
            acc <= 12 * i,
        decreases s@.len() - i,
    {
        proof {
            assert(s@.take(i + 1).drop_last() =~= s@.take(i as int));
        }
        let ch = s[i];
        let c = ch as u32;
        let kept = 0x21 <= c && c <= 0x7e && ch != '"' && ch != '#' && ch != '<' && ch != '>'
            && ch != '`' && ch != '?' && ch != '{' && ch != '}';
        let n: u128 = if kept {
            1
        } else if c < 0x80 {
            3
        } else if c < 0x800 {
            6
        } else if c < 0x10000 {
            9
        } else {
            12
        };
        acc = acc + n;
        i = i + 1;
    }
    proof {
        assert(s@.take(s@.len() as int) =~= s@);
    }
    acc
}

/// The serialization of `input` resolved against the URL serialized as `base`
/// (`reqwest::Url::join`), or `None` when it does not resolve.
pub uninterp spec fn url_joined(base: Seq<char>, input: Seq<char>) -> Option<Seq<char>>;

/// `reqwest::Url::join` on the URL serialized as `base`.
#[verifier::external_body]
fn join_url(base: &str, input: &str) -> (r: Option<String>)
    ensures
        opt_view(r) == url_joined(base@, input@),
{
    match reqwest::Url::parse(base) {
        Ok(u) => match u.join(input) {
            Ok(j) => Some(j.into()),
            Err(_) => None,
        },
        Err(_) => None,
    }
}

/// `s` without its leading slashes (`trim_start_matches('/')`).
pub open spec fn without_leading_slashes(s: Seq<char>) -> Seq<char>
    decreases s.len(),
{
    if s.len() > 0 && s[0] == '/' {
        without_leading_slashes(s.drop_first())
    } else {
        s
    }
}

/// Whether the base URL's path already ends with a slash.
pub open spec fn slash_terminated_path(base: Seq<char>) -> bool {
    let path = url_path_of(base);
    path.len() > 0 && path.last() == '/'
}

/// The base URL with a trailing slash on its path, so that joining keeps every
/// path segment.
pub open spec fn slash_terminated(base: Seq<char>) -> Seq<char> {
    if slash_terminated_path(base) {
        base
    } else {
        url_with_path(base, url_path_of(base).push('/'))
    }
}

/// What [`endpoint_url`] gives for a base URL and an endpoint path: the joined
/// URL, or the text of the configuration error. A base whose path would grow
/// past the URL size limit is refused as an invalid base.
pub open spec fn endpoint_result(base_url: Seq<char>, path: Seq<char>) -> Result<
    Seq<char>,
    Seq<char>,
> {
    match parsed_url(base_url) {
        None => Err("invalid base URL"@),
        Some(base) => if !slash_terminated_path(base) && !path_fits(
            base,
            url_path_of(base).push('/'),
        ) {
            Err("invalid base URL"@)
        } else {
            match url_joined(slash_terminated(base), without_leading_slashes(path)) {
                None => Err("invalid endpoint path"@),
                Some(full) => Ok(full),
            }
        },
    }
}

/// Joins a base URL and an endpoint path: the base keeps all its path segments
/// (a trailing slash is added to its path when missing) and the endpoint path is
/// resolved relative to it, without its leading slashes.
pub fn endpoint_url(base_url: &str, path: &str) -> (r: Result<String, TransportError>)
    ensures
        match endpoint_result(base_url@, path@) {
            Ok(full) => r matches Ok(s) && s@ == full,
            Err(m) => r matches Err(TransportError::InvalidConfig(t)) && t@ == m,
        },
{
    let base = match parse_url(base_url) {
        Some(b) => b,
        None => return Err(TransportError::InvalidConfig("invalid base URL")),
    };
    let p = url_path(base.as_str());
    let pc = chars_of(p.as_str());
    let base = if pc.len() > 0 && pc[pc.len() - 1] == '/' {
        base
    } else {
        let mut with_slash = p;
        push_char(&mut with_slash, '/');
        let bc = chars_of(base.as_str());
        let wc = chars_of(with_slash.as_str());
        let base_bytes = utf8_byte_count(&bc);
        let path_bytes = utf8_byte_count(&pc);
        let new_path = encoded_path_count(&wc);
        let n_base = bc.len();
        let n_new = wc.len();
        proof {
            assert(n_base == bc@.len() && n_new == wc@.len());
            assert(usize::MAX <= 0xffff_ffff_ffff_ffff);
            assert(base_bytes <= 4 * 0xffff_ffff_ffff_ffffu128);
            assert(new_path <= 12 * 0xffff_ffff_ffff_ffffu128);
        }
        if base_bytes + new_path + 8 >= u32::MAX as u128 + path_bytes {
            proof {
                assert(!path_fits(base@, with_slash@));
            }
            return Err(TransportError::InvalidConfig("invalid base URL"));
        }
        set_url_path(base.as_str(), with_slash.as_str())
    };
    let cs = chars_of(path);
    let mut start: usize = 0;
    proof {
        assert(cs@.skip(0) =~= cs@);
    }
    while start < cs.len() && cs[start] == '/'
        invariant
            cs@ == path@,
            0 <= start <= cs@.len(),
            without_leading_slashes(path@) == without_leading_slashes(cs@.skip(start as int)),
        decreases cs@.len() - start,
    {
        proof {
            assert(cs@.skip(start as int).drop_first() =~= cs@.skip(start + 1));
        }
        start = start + 1;
    }
    proof {
        if start < cs@.len() {
            assert(cs@.skip(start as int)[0] == cs@[start as int]);
        }
        assert(cs@.subrange(start as int, cs@.len() as int) =~= cs@.skip(start as int));
    }
    let rel = string_from_chars(&cs, start, cs.len());
    match join_url(base.as_str(), rel.as_str()) {
        Some(full) => Ok(full),
        None => Err(TransportError::InvalidConfig("invalid endpoint path")),
    }
}

// ---------------------------------------------------------------------------
// Streaming responses
// ---------------------------------------------------------------------------

/// The `content-type` header of a streaming response, as far as it could be read.
#[derive(Clone, Debug, PartialEq, Eq)]
pub enum ContentType {
    /// The header is absent.
    Missing,
    /// The header is not valid UTF-8.
    NotUtf8,
    /// The header's value.
    Value(String),
}

/// What a streaming response's `content-type` must be: present, UTF-8, and
/// starting with `text/event-stream`; otherwise the error's text.
pub open spec fn event_stream_check(content_type: ContentType) -> Option<Seq<char>> {
    match content_type {
        ContentType::Missing => Some("streaming response was missing content-type"@),
        ContentType::NotUtf8 => Some("streaming response content-type was not valid UTF-8"@),
        ContentType::Value(v) => if has_prefix(v@, "text/event-stream"@) {
            None
        } else {
            Some("expected text/event-stream response, got "@ + v@)
        },
    }
}

/// Checks that a response is an event stream before reading it as one.
pub fn ensure_event_stream(content_type: &ContentType) -> (r: Result<(), TransportError>)
    ensures
        match event_stream_check(*content_type) {
            None => r is Ok,
            Some(m) => r matches Err(TransportError::InvalidResponse(t)) && t@ == m,
        },
{
    match content_type {
        ContentType::Missing => Err(
            TransportError::InvalidResponse(owned("streaming response was missing content-type")),
        ),
        ContentType::NotUtf8 => Err(
            TransportError::InvalidResponse(
                owned("streaming response content-type was not valid UTF-8"),
            ),
        ),
        ContentType::Value(v) => {
            let cs = chars_of(v.as_str());
            let expected = chars_of("text/event-stream");
            let ok = crate::text::matches_at(&cs, &expected, 0);
            proof {
                if expected@.len() <= cs@.len() {
                    assert(cs@.subrange(0, expected@.len() as int) =~= cs@.take(
                        expected@.len() as int,
                    ));
                }
            }
            if ok {
                Ok(())
            } else {
                let mut m = owned("expected text/event-stream response, got ");
                append_str(&mut m, v.as_str());
                Err(TransportError::InvalidResponse(m))
            }
        },
    }
}

// ---------------------------------------------------------------------------
// Authentication
// ---------------------------------------------------------------------------

/// Whether a byte may stand in an HTTP header value: visible ASCII, space,
/// horizontal tab, or any byte from 0x80 on.
pub open spec fn valid_header_byte(b: u8) -> bool {
    (b >= 32 && b != 127) || b == 9
}

/// `reqwest::header::HeaderValue::from_str` succeeds exactly when every byte of
/// the text is allowed in a header value.
#[verifier::external_body]
fn is_valid_header_value(value: &str) -> (r: bool)
    ensures
        r == forall|i: int| 0 <= i < value.spec_bytes().len() ==> valid_header_byte(
            #[trigger] value.spec_bytes()[i],
        ),
{
    reqwest::header::HeaderValue::from_str(value).is_ok()
}

/// The `Authorization` header value for an API key: `Bearer ` and the key, which
/// must hold only bytes allowed in a header.
pub fn bearer_authorization(api_key: &str) -> (r: Result<String, TransportError>)
    ensures
        ({
            let value = "Bearer "@ + api_key@;
            if forall|i: int| 0 <= i < encode_utf8(value).len() ==> valid_header_byte(
                #[trigger] encode_utf8(value)[i],
            ) {
                r matches Ok(s) && s@ == value
            } else {
                r matches Err(TransportError::InvalidConfig(m)) && m@
                    == "api key contains invalid header characters"@
            }
        }),
{
    let mut value = owned("Bearer ");
    append_str(&mut value, api_key);
    let text = value.as_str();
    let ok = is_valid_header_value(text);
    proof {
        assert(text.spec_bytes() == encode_utf8(text@));
    }
    if ok {
        Ok(value)
    } else {
        Err(TransportError::InvalidConfig("api key contains invalid header characters"))
    }
}

/// Whether an HTTP status is a success (2xx).
pub fn is_success_status(status: u16) -> (r: bool)
    ensures
        r == (200 <= status && status < 300),
{
    200 <= status && status < 300
}

} // verus!
