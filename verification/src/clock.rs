//! Wall-clock readings, taken through the `chrono` crate. Nothing can be
//! promised of a clock's value, so callers that need exact contracts take a
//! time argument instead and the clock is read only at the outermost layer.
use vstd::prelude::*;

verus! {

/// Relies on chrono::Utc::now and DateTime::timestamp_micros: the current
/// wall clock as whole microseconds since the Unix epoch. A reading before
/// the epoch comes back as 0. Nothing is promised of the value.
#[verifier::external_body]
pub(crate) fn wall_clock_micros() -> u64 {
    let t: i64 = chrono::Utc::now().timestamp_micros();
    u64::try_from(t).unwrap_or(0)
}

/// Relies on chrono::Utc::now and DateTime::timestamp_nanos_opt: the current
/// wall clock as whole nanoseconds since the Unix epoch, used as an entropy
/// source for sampling decisions. A reading before the epoch or beyond the
/// representable range comes back as 0. Nothing is promised of the value.
#[verifier::external_body]
pub(crate) fn wall_clock_nanos() -> u64 {
    let t: i64 = chrono::Utc::now().timestamp_nanos_opt().unwrap_or(0);
    u64::try_from(t).unwrap_or(0)
}

} // verus!
