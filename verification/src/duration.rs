//! A span of time held as a whole number of nanoseconds.

use vstd::prelude::*;

verus! {

/// Nanoseconds in one second.
pub const NANOS_PER_SEC: u128 = 1_000_000_000;

/// The longest span that can be held: `u64::MAX` seconds and 999_999_999
/// nanoseconds, the same range as a standard library duration.
pub const MAX_NANOS: u128 = 18_446_744_073_709_551_615_999_999_999;

/// A span of time, counted in nanoseconds.
#[derive(Debug, Clone, Copy, PartialEq, Eq, Structural)]
pub struct Duration {
    nanos: u128,
}

impl View for Duration {
    type V = nat;

    /// The span in nanoseconds.
    closed spec fn view(&self) -> nat {
        self.nanos as nat
    }
}

/// `a - b`, or zero where `b` is at least `a`.
pub open spec fn saturating_diff(a: nat, b: nat) -> nat {
    if a > b { (a - b) as nat } else { 0 }
}

impl Duration {
    #[verifier::type_invariant]
    spec fn in_range(self) -> bool {
        self.nanos <= MAX_NANOS
    }

    /// The empty span.
    pub fn zero() -> (d: Duration)
        ensures
            d@ == 0,
    {
        Duration { nanos: 0 }
    }

    /// A span of whole seconds.
    pub fn from_secs(secs: u64) -> (d: Duration)
        ensures
            d@ == secs * NANOS_PER_SEC,
    {
        assert(secs * NANOS_PER_SEC <= MAX_NANOS) by (nonlinear_arith)
            requires secs <= u64::MAX;
        Duration { nanos: secs as u128 * NANOS_PER_SEC }
    }

    /// A span of whole milliseconds.
    pub fn from_millis(millis: u64) -> (d: Duration)
        ensures
            d@ == millis * 1_000_000,
    {
        assert(millis * 1_000_000 <= MAX_NANOS) by (nonlinear_arith)
            requires millis <= u64::MAX;
        Duration { nanos: millis as u128 * 1_000_000 }
    }

    /// A span of whole nanoseconds; `None` where it is longer than a
    /// duration can hold.
    pub fn from_nanos(nanos: u128) -> (d: Option<Duration>)
        ensures
            d is Some <==> nanos <= MAX_NANOS,
            d matches Some(v) ==> v@ == nanos,
    {
        if nanos <= MAX_NANOS {
            Some(Duration { nanos })
        } else {
            None
        }
    }

    /// True when the span is empty.
    pub fn is_zero(&self) -> (b: bool)
        ensures
            b == (self@ == 0),
    {
        self.nanos == 0
    }

    /// The whole seconds of the span.
    pub fn as_secs(&self) -> (s: u64)
        ensures
            s == self@ / NANOS_PER_SEC as nat,
    {
        proof {
            use_type_invariant(self);
        }
        (self.nanos / NANOS_PER_SEC) as u64
    }

    /// The nanoseconds past the whole seconds.
    pub fn subsec_nanos(&self) -> (n: u32)
        ensures
            n == self@ % NANOS_PER_SEC as nat,
    {
        (self.nanos % NANOS_PER_SEC) as u32
    }

    /// The span in nanoseconds.
    pub fn as_nanos(&self) -> (n: u128)
        ensures
            n == self@,
            n <= MAX_NANOS,
    {
        proof {
            use_type_invariant(self);
        }
        self.nanos
    }

    /// `self - other`, or the empty span where `other` is at least `self`.
    pub fn saturating_sub(self, other: Duration) -> (d: Duration)
        ensures
            d@ == saturating_diff(self@, other@),
    {
        proof {
            use_type_invariant(self);
        }
        if self.nanos > other.nanos {
            Duration { nanos: self.nanos - other.nanos }
        } else {
            Duration { nanos: 0 }
        }
    }

    /// True when `self` is at least as long as `other`.
    pub fn at_least(&self, other: &Duration) -> (b: bool)
        ensures
            b == (self@ >= other@),
    {
        self.nanos >= other.nanos
    }
}

} // verus!
