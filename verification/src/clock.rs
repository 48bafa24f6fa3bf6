//! The engine's clock: milliseconds since the engine started. What the
//! library needs of `std::time` is declared here.
use std::time::Duration;
use std::time::Instant;
use vstd::prelude::*;

verus! {

/// `std::time::Instant`, a reading of the monotonic clock, as an opaque value.
#[verifier::external_type_specification]
#[verifier::external_body]
pub struct ExInstant(Instant);

/// `Instant::now` reads the monotonic clock. Nothing is claimed of the reading.
pub assume_specification[ Instant::now ]() -> (now: Instant)
;

/// `Instant::elapsed` gives the time since the instant was taken. Nothing is
/// claimed of it: it depends on when the call is made.
pub assume_specification[ Instant::elapsed ](instant: &Instant) -> (since: Duration)
;

/// The whole milliseconds that a duration holds: what `Duration::as_millis`
/// gives for it.
pub uninterp spec fn whole_millis(duration: Duration) -> u128;

/// The duration that lasts this many milliseconds: what
/// `Duration::from_millis` makes of them.
pub uninterp spec fn millis_long(millis: u64) -> Duration;

/// `Duration::as_millis` gives the whole milliseconds that the duration holds.
/// The contract claims only that they depend on the duration alone, and gives
/// them a name.
pub assume_specification[ Duration::as_millis ](duration: &Duration) -> (millis: u128)
    ensures
        millis == whole_millis(*duration),
;

/// `Duration::from_millis` makes the duration of that many milliseconds. The
/// contract claims only that it depends on the count alone, and gives it a
/// name.
pub assume_specification[ Duration::from_millis ](millis: u64) -> (duration: Duration)
    ensures
        duration == millis_long(millis),
;

/// The reading that stands for a count of whole milliseconds: the count
/// itself, or `u64::MAX` where a `u64` cannot hold it.
pub open spec fn reading_for(millis: u128) -> u64 {
    if millis > u64::MAX {
        u64::MAX
    } else {
        millis as u64
    }
}

/// A monotonic clock that counts milliseconds from the moment it was started.
pub struct Clock {
    epoch: Instant,
}

impl Clock {
    /// Starts a clock at reading 0.
    pub fn start() -> Clock {
        Clock { epoch: Instant::now() }
    }

    /// The current reading: the reading for the whole milliseconds that have
    /// passed since the clock was started. Nothing is promised of how many
    /// those are.
    pub fn now_ms(&self) -> u64 {
        let millis: u128 = self.epoch.elapsed().as_millis();
        Self::reading_of(millis)
    }

    /// The reading for a count of whole milliseconds.
    pub fn reading_of(millis: u128) -> (reading: u64)
        ensures
            reading == reading_for(millis),
    {
        if millis > u64::MAX as u128 {
            u64::MAX
        } else {
            millis as u64
        }
    }
}

} // verus!
