//! The timestamp normalizer: RFC 3339 strings to Unix epoch seconds.

use vstd::prelude::*;
use crate::error::TimestampParseError;

verus! {

/// The Unix epoch seconds (possibly negative, for pre-1970 instants)
/// that an RFC 3339 string denotes, or `None` where the string is not a
/// valid RFC 3339 date-and-time. The value depends on the characters of
/// the string alone.
pub uninterp spec fn rfc3339_epoch(s: Seq<char>) -> Option<i64>;

/// Relies on chrono's `DateTime::parse_from_rfc3339` and
/// `DateTime::timestamp`: parsing and the epoch value are both pure
/// functions of the input string, and neither panics.
#[verifier::external_body]
pub(crate) fn rfc3339_to_epoch(s: &str) -> (r: Option<i64>)
    ensures
        r == rfc3339_epoch(s@),
{
    match chrono::DateTime::parse_from_rfc3339(s) {
        Ok(dt) => Some(dt.timestamp()),
        Err(_) => None,
    }
}

/// The derived epoch of a publishedAt field: only a non-empty string is
/// ever handed to the RFC 3339 parser.
pub open spec fn epoch_of(published_at: Seq<char>) -> Option<i64> {
    if published_at.len() > 0 {
        rfc3339_epoch(published_at)
    } else {
        None
    }
}

/// Attempt an RFC 3339 parse; on success the Unix epoch seconds, on
/// failure a typed error that callers downgrade to a per-article warning.
pub fn normalize_timestamp(raw: &str) -> (r: Result<i64, TimestampParseError>)
    ensures
        (match rfc3339_epoch(raw@) {
            Some(e) => r == Result::<i64, TimestampParseError>::Ok(e),
            None => r matches Err(te) && te.raw@ == raw@,
        }),
{
    match rfc3339_to_epoch(raw) {
        Some(e) => Ok(e),
        None => Err(TimestampParseError { raw: raw.to_owned() }),
    }
}

} // verus!
