use core::time::Duration;
use std::time::Instant;
use vstd::prelude::*;

verus! {

/// The time capability: a monotonic clock read through its instants.
///
/// `D` is the type of the differences between instants. The clock must not
/// run backwards: an instant read later is never earlier than one read
/// before it, so `elapsed` never has to represent a negative span.
///
/// Two readings of a clock differ, so neither method has a postcondition
/// here. What an implementation states of its own readings, the button's
/// contracts pass on.
pub trait InstantProvider<D = Duration>: Sized {
    /// Returns the instant that is "now".
    fn now() -> Self;

    /// Returns the time that has passed since this instant: the difference
    /// between a fresh `now()` and `self`. It must return for every instant
    /// that `now()` has handed out.
    fn elapsed(&self) -> D;
}

/// `std::time::Instant`, carried through as it is: nothing inside it is seen.
#[verifier::external_type_specification]
#[verifier::external_body]
pub struct ExInstant(Instant);

/// `std::time::Instant::now`: reads the host's monotonic clock. Nothing is
/// claimed of the instant that comes back.
#[verifier::external_body]
pub(crate) fn std_now() -> Instant {
    Instant::now()
}

/// `std::time::Instant::elapsed`: the time from `since` to a fresh reading of
/// the host's clock, zero if `since` is later. Nothing is claimed of the
/// duration that comes back.
#[verifier::external_body]
pub(crate) fn std_elapsed(since: &Instant) -> Duration {
    since.elapsed()
}

impl InstantProvider<Duration> for Instant {
    fn now() -> Self {
        std_now()
    }

    fn elapsed(&self) -> Duration {
        std_elapsed(self)
    }
}

/// `embassy_time::Instant`, carried through as it is: nothing inside it is seen.
#[verifier::external_type_specification]
#[verifier::external_body]
pub struct ExEmbassyInstant(embassy_time::Instant);

/// `embassy_time::Duration`, carried through as it is: nothing inside it is seen.
#[verifier::external_type_specification]
#[verifier::external_body]
pub struct ExEmbassyDuration(embassy_time::Duration);

/// `embassy_time::Instant::now`: reads the tick counter of the time driver.
/// Nothing is claimed of the instant that comes back.
#[verifier::external_body]
fn embassy_now() -> embassy_time::Instant {
    embassy_time::Instant::now()
}

/// `embassy_time::Instant::saturating_duration_since`, applied to a fresh
/// `embassy_time::Instant::now`: the ticks from `since` to now, zero if
/// `since` lies ahead of the counter. Nothing is claimed of the duration
/// that comes back.
#[verifier::external_body]
fn embassy_elapsed(since: &embassy_time::Instant) -> embassy_time::Duration {
    embassy_time::Instant::now().saturating_duration_since(*since)
}

impl InstantProvider<embassy_time::Duration> for embassy_time::Instant {
    fn now() -> Self {
        embassy_now()
    }

    fn elapsed(&self) -> embassy_time::Duration {
        embassy_elapsed(self)
    }
}

} // verus!
