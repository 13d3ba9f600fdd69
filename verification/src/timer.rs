//! The state of a timed session: its length, the time left, and whether it
//! has run out.

use vstd::prelude::*;

use crate::duration::{saturating_diff, Duration, MAX_NANOS};

verus! {

#[verifier::external_type_specification]
#[verifier::external_body]
pub struct ExInstant(std::time::Instant);

/// `std::time::Instant::now`: a reading of the monotonic clock. It depends
/// on the time, so nothing is claimed of it.
#[verifier::external_body]
fn clock_now() -> std::time::Instant {
    std::time::Instant::now()
}

/// `std::time::Instant::elapsed`: the time since `start` by the monotonic
/// clock (zero where the clock reads earlier), given in whole nanoseconds by
/// `Duration::as_nanos`. The value depends on the time; what is claimed is
/// only the documented range of a duration, `u64::MAX` seconds and
/// 999_999_999 nanoseconds at most.
#[verifier::external_body]
fn nanos_since(start: &std::time::Instant) -> (nanos: u128)
    ensures
        nanos <= MAX_NANOS,
{
    start.elapsed().as_nanos()
}

/// A timed session: when it began and how long it lasts.
#[derive(Debug)]
pub struct TimerState {
    started_at: std::time::Instant,
    total: Duration,
}

impl View for TimerState {
    /// The length of the session in nanoseconds; the starting instant is a
    /// clock reading that nothing is claimed of.
    type V = nat;

    closed spec fn view(&self) -> nat {
        self.total@
    }
}

impl TimerState {
    /// Starts a session of length `total` now.
    pub fn new(total: Duration) -> (t: Self)
        ensures
            t@ == total@,
    {
        TimerState { started_at: clock_now(), total }
    }

    /// The length of the session.
    pub fn total(&self) -> (d: Duration)
        ensures
            d@ == self@,
    {
        self.total
    }

    /// The time since the session began, by the monotonic clock: a clock
    /// reading, of which only its range can be known.
    pub fn elapsed(&self) -> (d: Duration)
        ensures
            d@ <= MAX_NANOS,
    {
        let nanos = nanos_since(&self.started_at);
        Duration::from_nanos(nanos).unwrap()
    }

    /// The time left once `elapsed` has passed: never negative.
    pub fn remaining_at(&self, elapsed: Duration) -> (d: Duration)
        ensures
            d@ == saturating_diff(self@, elapsed@),
    {
        self.total.saturating_sub(elapsed)
    }

    /// True when `elapsed` covers the whole session.
    pub fn is_finished_at(&self, elapsed: Duration) -> (b: bool)
        ensures
            b == (elapsed@ >= self@),
    {
        elapsed.at_least(&self.total)
    }

    /// The time left now: never negative and never more than the length.
    pub fn remaining(&self) -> (d: Duration)
        ensures
            d@ <= self@,
    {
        self.remaining_at(self.elapsed())
    }

    /// True when the session has run out. A session of length zero has run
    /// out from the start.
    pub fn is_finished(&self) -> (b: bool)
        ensures
            self@ == 0 ==> b,
    {
        self.is_finished_at(self.elapsed())
    }
}

/// The time left falls exactly as fast as the clock runs, until it reaches
/// zero; a session that has run out at one reading has run out at every
/// later one.
pub proof fn law_time_left_falls_with_the_clock(total: nat, e1: nat, e2: nat)
    requires
        e1 <= e2,
    ensures
        saturating_diff(total, e2) <= saturating_diff(total, e1),
        e2 <= total ==> saturating_diff(total, e1) == saturating_diff(total, e2) + (e2 - e1),
        e1 >= total ==> e2 >= total,
        saturating_diff(total, 0) == total,
{
}

/// For one reading of the clock, the time left is zero exactly when the
/// session has run out, and otherwise the time left and the time passed add
/// up to the length.
pub proof fn law_remaining_and_finished_agree(total: nat, elapsed: nat)
    ensures
        (saturating_diff(total, elapsed) == 0) == (elapsed >= total),
        elapsed < total ==> saturating_diff(total, elapsed) + elapsed == total,
        saturating_diff(total, elapsed) <= total,
{
}

} // verus!
