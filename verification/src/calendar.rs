//! Instants as calendar text.

use vstd::prelude::*;

verus! {

/// The text that stands for the instant `secs` seconds and `nanos`
/// nanoseconds after the Unix epoch as a date and time of day in UTC; none
/// where the calendar has no date and time for the two numbers.
pub uninterp spec fn utc_debug_text(secs: int, nanos: int) -> Option<Seq<char>>;

/// `chrono::DateTime::<Utc>::from_timestamp`, and the `Debug` text of the
/// date and time that it gives. Claimed: the outcome, text or none, depends
/// on the two numbers alone.
#[verifier::external_body]
pub(crate) fn utc_debug(secs: i64, nanos: u32) -> (res: Option<String>)
    ensures
        match res {
            Some(text) => utc_debug_text(secs as int, nanos as int) == Some(text@),
            None => utc_debug_text(secs as int, nanos as int) is None,
        },
{
    match chrono::DateTime::from_timestamp(secs, nanos) {
        Some(utc) => Some(format!("{:?}", utc)),
        None => None,
    }
}

} // verus!
