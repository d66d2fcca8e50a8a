//! Time as the pipeline reads it: whole milliseconds.
//!
//! A reading depends on the moment of the call, so nothing is promised of
//! it; the functions that decide on a reading take it as an argument.

use vstd::prelude::*;
use std::time::Duration;
use std::time::Instant;
use std::time::SystemTime;

verus! {

/// `std::time::Instant`: a reading of the monotonic clock.
#[verifier::external_type_specification]
#[verifier::external_body]
pub struct ExInstant(Instant);

/// `std::time::SystemTime`: a reading of the wall clock.
#[verifier::external_type_specification]
#[verifier::external_body]
pub struct ExSystemTime(SystemTime);

/// `Instant::now`: the current reading of the monotonic clock.
#[verifier::external_body]
fn instant_now() -> Instant {
    Instant::now()
}

/// `Instant::elapsed`: the time since an earlier reading.
#[verifier::external_body]
fn time_since(origin: &Instant) -> Duration {
    origin.elapsed()
}

/// `SystemTime::now`: the current reading of the wall clock.
#[verifier::external_body]
fn wall_now() -> SystemTime {
    SystemTime::now()
}

/// `SystemTime::duration_since` with `UNIX_EPOCH`: the time from the epoch
/// to a reading, `None` where the reading lies before the epoch.
#[verifier::external_body]
fn since_epoch(reading: &SystemTime) -> Option<Duration> {
    reading.duration_since(std::time::UNIX_EPOCH).ok()
}

/// `Duration::as_millis`: the whole milliseconds of a span.
#[verifier::external_body]
fn whole_millis(span: &Duration) -> u128 {
    span.as_millis()
}

/// A count of milliseconds in 64 bits, the largest such count where the
/// span has more.
fn clamp_millis(millis: u128) -> (r: u64)
    ensures
        r == if millis > u64::MAX {
            u64::MAX
        } else {
            millis as u64
        },
{
    if millis > u64::MAX as u128 {
        u64::MAX
    } else {
        millis as u64
    }
}

/// A monotonic clock that counts from its own start.
pub struct MonotonicClock {
    origin: Instant,
}

impl MonotonicClock {
    /// A clock that starts now.
    pub fn start() -> (clock: MonotonicClock) {
        MonotonicClock { origin: instant_now() }
    }

    /// Milliseconds since the clock started.
    pub fn now_ms(&self) -> (ms: u64) {
        let span = time_since(&self.origin);
        clamp_millis(whole_millis(&span))
    }
}

/// Milliseconds since the Unix epoch by the wall clock, `None` where the
/// wall clock stands before the epoch.
pub fn unix_millis() -> (ms: Option<u64>) {
    let reading = wall_now();
    match since_epoch(&reading) {
        Some(span) => Some(clamp_millis(whole_millis(&span))),
        None => None,
    }
}

} // verus!
