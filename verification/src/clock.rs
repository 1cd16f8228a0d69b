//! The wall clock, read in whole milliseconds.
use vstd::prelude::*;

verus! {

/// The largest number of seconds that a duration can hold: `i64::MAX / 1000`.
pub const MAX_SECONDS: i64 = 9_223_372_036_854_775;

/// Calls `chrono::Local::now` and `DateTime::timestamp_millis`: the current
/// time in milliseconds since the start of 1970. Nothing is promised of the
/// value: it is whatever the machine's clock says, and two readings need not
/// even be in order. On a machine whose clock stands before 1970 the call
/// does not return.
#[verifier::external_body]
pub(crate) fn now_millis() -> (now: i64) {
    chrono::Local::now().timestamp_millis()
}

/// Calls `chrono::TimeDelta::try_seconds` and `TimeDelta::num_milliseconds`:
/// a duration of whole seconds, in milliseconds. The duration exists exactly
/// for the seconds from `-MAX_SECONDS` to `MAX_SECONDS`, and then holds a
/// thousand milliseconds for each second.
#[verifier::external_body]
pub(crate) fn seconds_to_millis(seconds: i64) -> (millis: Option<i64>)
    ensures
        millis is Some <==> -MAX_SECONDS <= seconds <= MAX_SECONDS,
        millis matches Some(ms) ==> ms == seconds * 1000,
{
    match chrono::TimeDelta::try_seconds(seconds) {
        Some(delta) => Some(delta.num_milliseconds()),
        None => None,
    }
}

} // verus!
