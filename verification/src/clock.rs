//! The stopwatch around every workload.

use std::time::{Duration, Instant};
use vstd::prelude::*;

verus! {

/// A running timer on the monotonic clock. It is started once and may be
/// read any number of times.
pub struct Stopwatch {
    started: Instant,
}

impl Stopwatch {
    /// Starts a timer at the current reading of the clock.
    pub fn start() -> (watch: Stopwatch) {
        Stopwatch { started: Instant::now() }
    }

    /// Whole nanoseconds since the timer was started, as the clock gives
    /// them.
    pub fn elapsed_nanos(&self) -> (nanos: u128) {
        let span: Duration = self.started.elapsed();
        span.as_nanos()
    }
}

} // verus!
