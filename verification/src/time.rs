//! The clocks and durations of `std::time` that the library reads. Their
//! values depend on when they are read, so nothing is promised of them
//! beyond what holds of every reading.

use std::time::{Duration, Instant, SystemTime};

use vstd::prelude::*;

verus! {

#[verifier::external_type_specification]
#[verifier::external_body]
pub struct ExInstant(Instant);

#[verifier::external_type_specification]
#[verifier::external_body]
pub struct ExSystemTime(SystemTime);

/// Calls `Instant::now()`: a reading of the monotonic clock. Nothing is
/// promised of its value.
#[verifier::external_body]
pub(crate) fn instant_now() -> Instant {
    Instant::now()
}

/// Calls `Instant::duration_since`: the time from `earlier` to `later`
/// (zero if `earlier` is later). Nothing is promised of its value here.
#[verifier::external_body]
pub(crate) fn instant_duration_since(later: Instant, earlier: Instant) -> Duration {
    later.duration_since(earlier)
}

/// The whole number of nanoseconds in `d`, as `Duration::as_nanos` reports
/// it.
pub uninterp spec fn duration_nanos(d: Duration) -> u128;

/// Calls `Duration::as_nanos`: the whole number of nanoseconds in `d`.
#[verifier::external_body]
pub(crate) fn duration_as_nanos(d: Duration) -> (r: u128)
    ensures
        r == duration_nanos(d),
{
    d.as_nanos()
}

/// Calls `Duration::new(secs, nanos)`, which cannot panic when `nanos` is
/// below one second, and whose result holds `secs` seconds and `nanos`
/// nanoseconds.
#[verifier::external_body]
pub(crate) fn duration_new(secs: u64, nanos: u32) -> (r: Duration)
    requires
        nanos < 1_000_000_000,
    ensures
        duration_nanos(r) == secs * 1_000_000_000 + nanos,
{
    Duration::new(secs, nanos)
}

/// Calls `SystemTime::now()`: a reading of the wall clock. Nothing is
/// promised of its value.
#[verifier::external_body]
pub(crate) fn system_time_now() -> SystemTime {
    SystemTime::now()
}

/// Reads `SystemTime::UNIX_EPOCH`, the start of 1970 (UTC). Nothing is
/// promised of the value here (a `SystemTime` has no model in this crate).
#[verifier::external_body]
pub(crate) fn unix_epoch() -> SystemTime {
    SystemTime::UNIX_EPOCH
}

/// Calls `SystemTime::duration_since`: the time from `earlier` to `later`,
/// or `None` where `earlier` is the later of the two. Nothing is promised of
/// the value here.
#[verifier::external_body]
pub(crate) fn system_time_duration_since(later: SystemTime, earlier: SystemTime) -> Option<Duration> {
    match later.duration_since(earlier) {
        Ok(d) => Some(d),
        Err(_) => None,
    }
}

} // verus!
