//! Validation of the date-and-time strings that rows carry.
//!
//! The record shape requires its two date fields to hold RFC 3339
//! date-and-time strings. Whether a string is one, and which instant it
//! denotes, is decided by chrono; the rest of the crate only carries the
//! named result along.

use vstd::prelude::*;

verus! {

/// The instant, in milliseconds since the Unix epoch, denoted by an
/// RFC 3339 date-and-time string, or `None` where the string is not a
/// valid one. The name is given meaning only by `parse_rfc3339_millis`
/// below; it depends on the characters of `s` alone.
pub uninterp spec fn rfc3339_millis_of(s: Seq<char>) -> Option<i64>;

/// Relies on chrono's `DateTime::parse_from_rfc3339`, a function of the
/// characters alone that accepts exactly the valid RFC 3339
/// date-and-time strings, and on `timestamp_millis` on the parsed value.
#[verifier::external_body]
pub(crate) fn parse_rfc3339_millis(s: &str) -> (r: Option<i64>)
    ensures
        r == rfc3339_millis_of(s@),
{
    match chrono::DateTime::parse_from_rfc3339(s) {
        Ok(dt) => Some(dt.timestamp_millis()),
        Err(_) => None,
    }
}

} // verus!
