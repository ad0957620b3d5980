//! The system clocks: the monotonic clock that times a recording, and the
//! wall clock whose reading names it.
use std::time::{Duration, Instant, SystemTime, UNIX_EPOCH};
use vstd::prelude::*;

verus! {

#[verifier::external_type_specification]
#[verifier::external_body]
pub struct ExInstant(Instant);

#[verifier::external_type_specification]
#[verifier::external_body]
pub struct ExSystemTime(SystemTime);

/// The current moment, from `std::time::Instant::now`. Nothing is stated of it.
#[verifier::external_body]
pub(crate) fn instant_now() -> (t: Instant) {
    Instant::now()
}

/// The time since `start`, from `std::time::Instant::elapsed`. It depends on
/// the clock; nothing is stated of it.
#[verifier::external_body]
pub(crate) fn instant_elapsed(start: &Instant) -> (d: Duration) {
    start.elapsed()
}

/// The whole seconds of a duration, from `std::time::Duration::as_secs`.
/// A `Duration` is opaque here, so nothing is stated of the result.
#[verifier::external_body]
pub(crate) fn duration_whole_secs(d: &Duration) -> (secs: u64) {
    d.as_secs()
}

/// The current wall-clock time, from `std::time::SystemTime::now`. Nothing is
/// stated of it.
#[verifier::external_body]
pub(crate) fn system_time_now() -> (t: SystemTime) {
    SystemTime::now()
}

/// The time from the Unix epoch to `t`, from
/// `std::time::SystemTime::duration_since` with `UNIX_EPOCH`: `None` where `t`
/// lies before the epoch. Nothing more is stated of it.
#[verifier::external_body]
pub(crate) fn since_unix_epoch(t: &SystemTime) -> (d: Option<Duration>) {
    t.duration_since(UNIX_EPOCH).ok()
}

/// The wall clock's reading in whole seconds since the Unix epoch; `None`
/// where it reads a time before the epoch. The reading depends on the clock;
/// nothing is stated of it.
pub fn wall_clock_secs() -> Option<u64> {
    let now = system_time_now();
    match since_unix_epoch(&now) {
        Some(d) => Some(duration_whole_secs(&d)),
        None => None,
    }
}

} // verus!
