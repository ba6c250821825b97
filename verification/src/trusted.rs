//! The crate's trusted boundary: the few outside computations the logic
//! leans on, each behind a wrapper whose contract names exactly what the
//! outside function computes from its arguments.

use vstd::prelude::*;

verus! {

/// What the standard base64 alphabet decodes a string to, if anything.
/// Decoding is a function of the input characters alone.
pub uninterp spec fn base64_decoded(s: Seq<char>) -> Option<Seq<u8>>;

/// Whether a string parses as a container identifier in any of the
/// accepted UUID formats; a function of the input characters alone.
pub uninterp spec fn uuid_parses(s: Seq<char>) -> bool;

/// What an RFC 3339 timestamp parses to, as seconds since the Unix epoch,
/// if anything; a function of the input characters alone.
pub uninterp spec fn rfc3339_epoch(s: Seq<char>) -> Option<i64>;

/// Relies on base64's `Engine::decode` with the standard-alphabet engine:
/// deterministic decoding of the input string.
#[verifier::external_body]
pub(crate) fn decode_base64(s: &str) -> (r: Option<Vec<u8>>)
    ensures
        match r {
            Some(v) => base64_decoded(s@) == Some(v@),
            None => base64_decoded(s@) is None,
        },
{
    base64::Engine::decode(&base64::prelude::BASE64_STANDARD, s).ok()
}

/// Relies on uuid's `Uuid::parse_str`: deterministic validation of the
/// input string.
#[verifier::external_body]
pub(crate) fn uuid_is_valid(s: &str) -> (r: bool)
    ensures
        r == uuid_parses(s@),
{
    uuid::Uuid::parse_str(s).is_ok()
}

/// Relies on uuid's `Uuid::new_v4` and its hyphenated rendering: a fresh
/// random identifier, 36 characters long.  The value is random, so nothing
/// more is promised of it.
#[verifier::external_body]
pub(crate) fn fresh_uuid_string() -> (r: String)
    ensures
        r@.len() == 36,
{
    uuid::Uuid::new_v4().to_string()
}

/// Relies on chrono's `DateTime::parse_from_rfc3339` and
/// `DateTime::timestamp`: deterministic parsing of the input string to
/// seconds since the Unix epoch.
#[verifier::external_body]
pub(crate) fn parse_rfc3339_epoch(s: &str) -> (r: Option<i64>)
    ensures
        r == rfc3339_epoch(s@),
{
    chrono::DateTime::parse_from_rfc3339(s).map(|dt| dt.timestamp()).ok()
}

} // verus!
