//! The calls this library makes into std and outside crates whose behaviour
//! it does not prove: each function here is trusted, and its contract says
//! what the called function is documented or seen in its source to do.

use vstd::prelude::*;
use vstd::utf8::encode_utf8;

verus! {

/// An instant as seconds and nanoseconds since the Unix epoch, in UTC.
#[derive(Clone, Copy, Debug, PartialEq, Eq)]
pub struct Timestamp {
    pub secs: i64,
    pub nanos: u32,
}

/// The result of `str::to_lowercase`: the string lower-cased by the Unicode
/// `Lowercase` mapping (which may change its length).
pub uninterp spec fn unicode_lowercase(s: Seq<char>) -> Seq<char>;

/// Calls `str::to_lowercase`. The contract claims only that the result is
/// determined by the input; what the Unicode mapping does is not stated.
#[verifier::external_body]
pub(crate) fn to_lowercase(s: &str) -> (r: String)
    ensures
        r@ == unicode_lowercase(s@),
{
    s.to_lowercase()
}

/// Whether `url::Url::parse` accepts the input as an absolute URL.
pub uninterp spec fn url_parses(input: Seq<char>) -> bool;

/// `url::Url::host_str` of the URL that `url::Url::parse` makes of the input.
pub uninterp spec fn url_host(input: Seq<char>) -> Option<Seq<char>>;

/// `url::Url::path` of the URL that `url::Url::parse` makes of the input.
pub uninterp spec fn url_path(input: Seq<char>) -> Seq<char>;

/// The parts of a parsed URL that this library reads.
pub struct UrlParts {
    pub host: Option<String>,
    pub path: String,
}

/// Calls `url::Url::parse` and, on success, reads `host_str` and `path` of the
/// result. The contract claims that success and both parts are determined by
/// the input string; the WHATWG parsing rules themselves are not stated.
#[verifier::external_body]
pub(crate) fn parse_url(input: &str) -> (r: Option<UrlParts>)
    ensures
        r is Some <==> url_parses(input@),
        r matches Some(p) ==> p.path@ == url_path(input@),
        r matches Some(p) ==> match p.host {
            Some(h) => url_host(input@) == Some(h@),
            None => url_host(input@) is None,
        },
{
    match url::Url::parse(input) {
        Ok(u) => Some(UrlParts { host: u.host_str().map(String::from), path: u.path().to_string() }),
        Err(_) => None,
    }
}

/// The bytes that `urlencoding::encode` leaves as they are: ASCII letters,
/// digits and `-`, `.`, `_`, `~`.
pub open spec fn is_unreserved_byte(b: u8) -> bool {
    ||| (48 <= b && b <= 57)
    ||| (65 <= b && b <= 90)
    ||| (97 <= b && b <= 122)
    ||| b == 45
    ||| b == 46
    ||| b == 95
    ||| b == 126
}

/// The upper-case hexadecimal digit for `d` in `0..16`.
pub open spec fn hex_upper(d: int) -> char {
    if d < 10 {
        (48 + d) as char
    } else {
        (55 + d) as char
    }
}

/// Percent-encoding of a byte string: unreserved bytes stay, every other
/// byte `b` becomes `%` followed by the two upper-case hex digits of `b`.
pub open spec fn percent_encode_bytes(bytes: Seq<u8>) -> Seq<char>
    decreases bytes.len(),
{
    if bytes.len() == 0 {
        Seq::empty()
    } else {
        let b = bytes[0];
        let head = if is_unreserved_byte(b) {
            seq![b as char]
        } else {
            seq!['%', hex_upper(b as int / 16), hex_upper(b as int % 16)]
        };
        head + percent_encode_bytes(bytes.drop_first())
    }
}

/// Calls `urlencoding::encode`, which percent-encodes the UTF-8 bytes of its
/// argument, keeping only ASCII alphanumerics and `-`, `_`, `.`, `~`.
#[verifier::external_body]
pub(crate) fn url_encode(s: &str) -> (r: String)
    ensures
        r@ == percent_encode_bytes(encode_utf8(s@)),
{
    urlencoding::encode(s).into_owned()
}

/// The instant that `chrono::DateTime::parse_from_rfc3339` reads from the
/// input, in UTC, or `None` when it rejects the input.
pub uninterp spec fn rfc3339_instant(s: Seq<char>) -> Option<(i64, u32)>;

/// Calls `chrono::DateTime::parse_from_rfc3339` and converts the result to
/// UTC seconds and nanoseconds. The contract claims that the outcome is
/// determined by the input; the RFC 3339 grammar is not stated.
#[verifier::external_body]
pub(crate) fn parse_rfc3339(s: &str) -> (r: Option<Timestamp>)
    ensures
        match r {
            Some(t) => rfc3339_instant(s@) == Some((t.secs, t.nanos)),
            None => rfc3339_instant(s@) is None,
        },
{
    match chrono::DateTime::parse_from_rfc3339(s) {
        Ok(dt) => {
            let utc = dt.with_timezone(&chrono::Utc);
            Some(Timestamp { secs: utc.timestamp(), nanos: utc.timestamp_subsec_nanos() })
        },
        Err(_) => None,
    }
}

/// The reason phrase that `http::StatusCode::canonical_reason` gives for a
/// status code, if it knows one.
pub uninterp spec fn canonical_reason(code: u16) -> Option<Seq<char>>;

/// Calls `http::StatusCode::canonical_reason` (through axum) for a valid status
/// code. The contract claims that the phrase is determined by the code; the
/// table of phrases is not stated.
#[verifier::external_body]
pub(crate) fn status_reason(code: u16) -> (r: Option<String>)
    requires
        100 <= code <= 999,
    ensures
        match r {
            Some(t) => canonical_reason(code) == Some(t@),
            None => canonical_reason(code) is None,
        },
{
    match axum::http::StatusCode::from_u16(code) {
        Ok(status) => status.canonical_reason().map(String::from),
        Err(_) => None,
    }
}

} // verus!
