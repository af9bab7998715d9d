//! The system clock and the calendar.

use vstd::prelude::*;

verus! {

/// The present moment, in seconds since the Unix epoch, as
/// `chrono::Utc::now().timestamp()` gives it. Nothing is claimed of the
/// value: it is whatever the system clock says. The call takes the clock to
/// stand at or after the epoch.
#[verifier::external_body]
pub(crate) fn unix_now() -> i64 {
    chrono::Utc::now().timestamp()
}

/// The text that chrono writes for the moment `secs` seconds after the Unix
/// epoch, as `2015-05-15 00:00:00 UTC`; `None` where the moment lies outside
/// the years that chrono can name.
pub uninterp spec fn utc_text(secs: i64) -> Option<Seq<char>>;

/// Calls `chrono::DateTime::from_timestamp` with no nanoseconds and writes
/// the moment out through its `Display`. The outcome is a function of `secs`
/// alone, named `utc_text`.
#[verifier::external_body]
pub(crate) fn format_utc(secs: i64) -> (text: Option<String>)
    ensures
        match text {
            Some(t) => utc_text(secs) == Some(t@),
            None => utc_text(secs) is None,
        },
{
    match chrono::DateTime::from_timestamp(secs, 0) {
        Some(moment) => Some(moment.to_string()),
        None => None,
    }
}

} // verus!
