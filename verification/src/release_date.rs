//! The release date of a directory entry as a point in time.

use vstd::prelude::*;

verus! {

/// The seconds since 1970-01-01T00:00:00Z of the moment that
/// `chrono::DateTime::parse_from_rfc3339` reads in a text, or `None` where it
/// reports an error.
pub uninterp spec fn rfc3339_seconds(text: Seq<char>) -> Option<i64>;

/// Calls `chrono::DateTime::parse_from_rfc3339` and takes the `timestamp` of the
/// moment it gives. The claim is that the outcome is a function of the text alone: the
/// text carries its own offset, and no clock or time zone of the machine is read.
#[verifier::external_body]
pub(crate) fn parse_rfc3339(text: &str) -> (r: Option<i64>)
    ensures
        r == rfc3339_seconds(text@),
{
    match chrono::DateTime::parse_from_rfc3339(text) {
        Ok(moment) => Some(moment.timestamp()),
        Err(_) => None,
    }
}

/// The update time for a parsed release date: its seconds, or 0 where the date did
/// not parse.
pub open spec fn seconds_or_epoch(parsed: Option<i64>) -> i64 {
    match parsed {
        Some(seconds) => seconds,
        None => 0,
    }
}

/// The update time for a parsed release date. A date that did not parse gives 0,
/// never a failure.
pub fn update_time(parsed: Option<i64>) -> (r: i64)
    ensures
        r == seconds_or_epoch(parsed),
{
    match parsed {
        Some(seconds) => seconds,
        None => 0,
    }
}

/// The update time for a release date given as text.
pub fn release_time(text: &str) -> (r: i64)
    ensures
        r == seconds_or_epoch(rfc3339_seconds(text@)),
        rfc3339_seconds(text@) is None ==> r == 0,
{
    update_time(parse_rfc3339(text))
}

} // verus!
