//! The library's trust boundary: the few validity checks and the one clock
//! read that outside crates perform for the configuration and state core.
//!
//! Each check is a pure function of the characters of its argument, so its
//! result is given a name that the callers' contracts speak of; nothing else
//! is assumed of the outside code.

use vstd::prelude::*;

verus! {

/// Whether `s` is a valid Matrix user id, as ruma defines it.
pub uninterp spec fn user_id_ok(s: Seq<char>) -> bool;

/// Relies on ruma's `UserId::parse`, which validates the `@localpart:domain`
/// shape of a user id and depends on the characters alone.
#[verifier::external_body]
pub(crate) fn is_valid_user_id(s: &String) -> (r: bool)
    ensures
        r == user_id_ok(s@),
{
    ruma::UserId::parse(s.as_str()).is_ok()
}

/// Whether `s` parses as a URI, as the http crate defines it.
pub uninterp spec fn uri_ok(s: Seq<char>) -> bool;

/// Relies on the http crate's `Uri` implementation of `FromStr` (re-exported
/// by axum), which depends on the characters alone.
#[verifier::external_body]
pub(crate) fn is_valid_uri(s: &String) -> (r: bool)
    ensures
        r == uri_ok(s@),
{
    s.as_str().parse::<axum::http::Uri>().is_ok()
}

/// Whether `s` is acceptable as an HTTP header value, as the http crate
/// defines it.
pub uninterp spec fn header_value_ok(s: Seq<char>) -> bool;

/// Relies on the http crate's `HeaderValue::from_str` (re-exported by
/// reqwest), which accepts a string iff every byte is tab or at least 32 and
/// not DEL, and so depends on the characters alone.
#[verifier::external_body]
pub(crate) fn is_valid_header_value(s: &String) -> (r: bool)
    ensures
        r == header_value_ok(s@),
{
    reqwest::header::HeaderValue::from_str(s.as_str()).is_ok()
}

/// Relies on std's `SystemTime::now`; the duration since the Unix epoch is
/// converted to whole seconds, and a clock that reads before the epoch is
/// reported as zero.  Nothing can be promised of the value.
#[verifier::external_body]
pub(crate) fn now_unix_seconds() -> u64 {
    match std::time::SystemTime::now().duration_since(std::time::UNIX_EPOCH) {
        Ok(d) => d.as_secs(),
        Err(_) => 0,
    }
}

} // verus!
