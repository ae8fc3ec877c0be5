//! Wall-clock time as session runs measure it.

use std::time::{Duration, Instant};
use vstd::prelude::*;

verus! {

/// `Instant` of std: a moment on the monotonic clock. Nothing is known of
/// what is inside.
#[verifier::external_type_specification]
#[verifier::external_body]
pub struct ExInstant(std::time::Instant);

/// `Instant::now` of std: the present moment on the monotonic clock. Which
/// moment that is depends on when the call is made, so nothing is claimed
/// of it.
#[verifier::external_body]
fn now() -> Instant {
    Instant::now()
}

/// `Instant::elapsed` of std: the time that has passed since the moment.
/// It depends on when the call is made, so nothing is claimed of it.
#[verifier::external_body]
fn elapsed(since: &Instant) -> Duration {
    since.elapsed()
}

/// `Duration::as_nanos` of std: the duration in whole nanoseconds. A
/// duration is opaque here, so the number stands for it from here on and
/// nothing is claimed of it.
#[verifier::external_body]
fn as_nanos(duration: &Duration) -> u128 {
    duration.as_nanos()
}

/// A running measurement of time, from the moment it was started.
#[derive(Debug)]
pub struct Stopwatch {
    started: Instant,
}

impl Stopwatch {
    /// Starts a measurement now.
    pub fn start() -> Stopwatch {
        Stopwatch { started: now() }
    }

    /// The nanoseconds that have passed since the measurement started. The
    /// measurement goes on: a later reading may be larger.
    pub fn elapsed_nanos(&self) -> u128 {
        let passed = elapsed(&self.started);
        as_nanos(&passed)
    }
}

} // verus!
