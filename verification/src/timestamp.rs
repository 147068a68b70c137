//! Points in time, as the order documents carry them.

use vstd::prelude::*;

verus! {

/// An instant on the UTC time line: whole seconds since the start of 1970,
/// and the nanoseconds since that second began.
///
/// `nanos` can pass 999,999,999 within a leap second.
#[derive(Debug, Clone, Copy, PartialEq, Eq)]
pub struct Timestamp {
    pub seconds: i64,
    pub nanos: u32,
}

/// The instant that a date-and-time text denotes, as `chrono` reads it into a
/// `DateTime<Utc>`; `None` for a text that it does not accept.
pub uninterp spec fn instant_of_text(text: Seq<char>) -> Option<Timestamp>;

/// Reads a date-and-time text.
///
/// Trusted: calls `chrono`'s `FromStr` for `DateTime<Utc>`, which takes a
/// relaxed form of RFC 3339 and moves the result to UTC, and then
/// `DateTime::timestamp` and `DateTime::timestamp_subsec_nanos`. The contract
/// only names the outcome: it depends on the text alone.
#[verifier::external_body]
pub(crate) fn parse_instant(text: &str) -> (instant: Option<Timestamp>)
    ensures
        instant == instant_of_text(text@),
{
    match text.parse::<chrono::DateTime<chrono::Utc>>() {
        Ok(at) => Some(Timestamp { seconds: at.timestamp(), nanos: at.timestamp_subsec_nanos() }),
        Err(_) => None,
    }
}

} // verus!
