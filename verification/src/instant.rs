use vstd::prelude::*;
use crate::models::Timestamp;

verus! {

/// The instant that `chrono::DateTime::parse_from_rfc3339` reads from `text`,
/// as the pair of its `timestamp` and its `timestamp_subsec_nanos`; `None`
/// where it reports an error.
pub uninterp spec fn rfc3339_instant(text: Seq<char>) -> Option<(i64, u32)>;

/// Calls `chrono::DateTime::parse_from_rfc3339` and takes the seconds and
/// nanoseconds of the instant it returns. The contract only names the
/// outcome; that the call is a function of the text alone is what is taken on
/// trust.
#[verifier::external_body]
fn read_rfc3339(text: &str) -> (instant: Option<(i64, u32)>)
    ensures
        instant == rfc3339_instant(text@),
{
    match chrono::DateTime::parse_from_rfc3339(text) {
        Ok(moment) => Some((moment.timestamp(), moment.timestamp_subsec_nanos())),
        Err(_) => None,
    }
}

/// The instant that an RFC 3339 date-and-time text denotes, if it denotes
/// one.
pub open spec fn instant_of(text: Seq<char>) -> Option<Timestamp> {
    match rfc3339_instant(text) {
        Some((secs, nanos)) => Some(Timestamp { secs, nanos }),
        None => None,
    }
}

/// Reads an RFC 3339 date-and-time text.
pub fn parse_rfc3339(text: &str) -> (instant: Option<Timestamp>)
    ensures
        instant == instant_of(text@),
{
    match read_rfc3339(text) {
        Some((secs, nanos)) => Some(Timestamp { secs, nanos }),
        None => None,
    }
}

} // verus!
