use vstd::prelude::*;

use core::time::Duration;
use std::time::UNIX_EPOCH;

verus! {

/// How long players have to modify a roll.
pub const ROLL_DEADLINE_MILLIS: u64 = 20000;

/// How long players have to modify a challenge.
pub const CHALLENGE_DEADLINE_MILLIS: u64 = 20000;

/// How long players have to decide whether to challenge.
pub const OFFER_DEADLINE_MILLIS: u64 = 10000;

/// Wraps `std::time::SystemTime::elapsed`, called on the Unix epoch; a clock set before
/// the epoch gives a zero duration.  Nothing is stated of the result: it is the clock's reading.
#[verifier::external_body]
fn time_since_epoch() -> Duration {
    UNIX_EPOCH.elapsed().unwrap_or_default()
}

/// Wraps `core::time::Duration::as_millis`.  Nothing is stated of the result, since the
/// duration it is read from is opaque here.
#[verifier::external_body]
fn duration_millis(duration: &Duration) -> u128 {
    duration.as_millis()
}

/// The current time, in milliseconds since the Unix epoch (saturated at `u64::MAX`).
pub fn current_time_millis() -> (now: u64) {
    let elapsed = time_since_epoch();
    let millis = duration_millis(&elapsed);
    if millis > u64::MAX as u128 {
        u64::MAX
    } else {
        millis as u64
    }
}

/// A period of time during which players may make their choices.
#[derive(Debug, Clone, Copy, PartialEq, Eq, Structural)]
pub struct Timeline {
    pub start_millis: u64,
    pub duration_millis: u64,
}

impl Timeline {
    /// The moment at which the period ends.
    pub open spec fn end_millis(self) -> int {
        self.start_millis + self.duration_millis
    }

    /// A period that starts at `start_millis` and lasts `duration_millis`.
    pub fn new(start_millis: u64, duration_millis: u64) -> (r: Timeline)
        ensures
            r == (Timeline { start_millis, duration_millis }),
    {
        Timeline { start_millis, duration_millis }
    }

    /// Whether the period is over at time `now_millis`.
    pub fn is_complete_at(&self, now_millis: u64) -> (r: bool)
        ensures
            r == (now_millis >= self.end_millis()),
    {
        now_millis as u128 >= self.start_millis as u128 + self.duration_millis as u128
    }

    /// Whether the period is over now; the answer depends on the clock.
    pub fn is_complete(&self) -> (r: bool) {
        self.is_complete_at(current_time_millis())
    }

    /// Starts the period again at time `now_millis`, keeping its length.
    pub fn reset_at(&mut self, now_millis: u64)
        ensures
            *final(self) == (Timeline { start_millis: now_millis, duration_millis: old(self).duration_millis }),
    {
        self.start_millis = now_millis;
    }

    /// Starts the period again now, keeping its length.
    pub fn reset(&mut self)
        ensures
            final(self).duration_millis == old(self).duration_millis,
    {
        self.reset_at(current_time_millis());
    }
}

/// A period for modifying a roll that starts now.
pub fn get_roll_deadline() -> (r: Timeline)
    ensures
        r.duration_millis == ROLL_DEADLINE_MILLIS,
{
    Timeline::new(current_time_millis(), ROLL_DEADLINE_MILLIS)
}

/// A period for modifying a challenge that starts now.
pub fn get_challenge_deadline() -> (r: Timeline)
    ensures
        r.duration_millis == CHALLENGE_DEADLINE_MILLIS,
{
    Timeline::new(current_time_millis(), CHALLENGE_DEADLINE_MILLIS)
}

/// A period for deciding whether to challenge that starts now.
pub fn get_offer_deadline() -> (r: Timeline)
    ensures
        r.duration_millis == OFFER_DEADLINE_MILLIS,
{
    Timeline::new(current_time_millis(), OFFER_DEADLINE_MILLIS)
}

} // verus!
