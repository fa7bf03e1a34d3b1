use vstd::prelude::*;
use std::time::{Duration, Instant};

verus! {

#[verifier::external_type_specification]
#[verifier::external_body]
pub struct ExInstant(std::time::Instant);

/// Relies on `Instant::now`: reads the monotonic clock; nothing is known of
/// the value.
pub assume_specification[ std::time::Instant::now ]() -> std::time::Instant;

/// Relies on `Instant::elapsed`: time since the instant; nothing is known of
/// the value.
pub assume_specification[ std::time::Instant::elapsed ](
    self_: &std::time::Instant,
) -> std::time::Duration;

/// Measures time since it was created or last updated.
pub struct Timer {
    stop: Instant,
}

impl Timer {
    /// A timer started now.
    pub fn new() -> Timer {
        Timer { stop: Instant::now() }
    }

    /// Restarts the timer now.
    pub fn update(&mut self) {
        self.stop = Instant::now();
    }

    /// Time since the timer was created or last updated.
    pub fn elapsed(&self) -> Duration {
        self.stop.elapsed()
    }
}

} // verus!
