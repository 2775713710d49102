use crate::instant::{std_elapsed, std_now};
use core::time::Duration;
use std::time::Instant;
use vstd::prelude::*;

verus! {

/// The interface between the driver and the clock of an operating system or
/// a timer.
pub trait Platform {
    /// Returns the time since the platform was set up, read from a monotonic
    /// clock.
    fn duration_since_init(&self) -> Duration;
}

/// The platform of a hosted program: the host's monotonic clock, counted from
/// the moment the value was made.
pub struct DefaultPlatform {
    start: Instant,
}

impl Default for DefaultPlatform {
    fn default() -> Self {
        Self { start: std_now() }
    }
}

impl Platform for DefaultPlatform {
    fn duration_since_init(&self) -> Duration {
        std_elapsed(&self.start)
    }
}

} // verus!
