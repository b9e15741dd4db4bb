//! Lengths of time in whole nanoseconds.

use vstd::prelude::*;

verus! {

/// Nanoseconds in a second.
pub const NANOS_PER_SEC: u128 = 1_000_000_000;

/// The longest representable duration: `u64::MAX` seconds and 999 999 999 nanoseconds.
pub const MAX_NANOS: u128 = 18_446_744_073_709_551_615_999_999_999;

/// A length of time, or a reading of a monotonic clock taken as the time since its origin.
///
/// The view of a duration is its number of nanoseconds.
#[derive(Debug, Clone, Copy, PartialEq, Eq, Structural)]
pub struct Duration {
    nanos: u128,
}

impl View for Duration {
    type V = nat;

    closed spec fn view(&self) -> nat {
        self.nanos as nat
    }
}

impl Duration {
    #[verifier::type_invariant]
    spec fn inv(self) -> bool {
        self.nanos <= MAX_NANOS
    }

    /// The empty duration.
    pub fn zero() -> (d: Duration)
        ensures
            d@ == 0,
    {
        Duration { nanos: 0 }
    }

    /// A duration of whole seconds.
    pub fn from_secs(secs: u64) -> (d: Duration)
        ensures
            d@ == secs * NANOS_PER_SEC,
            d@ == secs * 1_000_000_000,
    {
        Duration { nanos: secs as u128 * NANOS_PER_SEC }
    }

    /// A duration of whole milliseconds.
    pub fn from_millis(millis: u64) -> (d: Duration)
        ensures
            d@ == millis * 1_000_000,
    {
        Duration { nanos: millis as u128 * 1_000_000 }
    }

    /// A duration of whole nanoseconds, cut off at the longest one.
    pub fn from_nanos(nanos: u128) -> (d: Duration)
        ensures
            d@ == if nanos <= MAX_NANOS {
                nanos as nat
            } else {
                MAX_NANOS as nat
            },
    {
        if nanos <= MAX_NANOS {
            Duration { nanos }
        } else {
            Duration { nanos: MAX_NANOS }
        }
    }

    /// The number of nanoseconds.
    pub fn as_nanos(&self) -> (nanos: u128)
        ensures
            nanos == self@,
            nanos <= MAX_NANOS,
    {
        proof {
            use_type_invariant(self);
        }
        self.nanos
    }

    /// Whether `self` is shorter than `other`.
    pub fn shorter_than(&self, other: &Duration) -> (b: bool)
        ensures
            b == (self@ < other@),
    {
        self.nanos < other.nanos
    }

    /// The difference, or nothing when `other` is longer.
    pub fn saturating_sub(&self, other: &Duration) -> (d: Duration)
        ensures
            d@ == monus(self@, other@),
            other@ <= self@ ==> d@ + other@ == self@,
            self@ <= other@ ==> d@ == 0,
    {
        proof {
            use_type_invariant(self);
        }
        if self.nanos < other.nanos {
            Duration { nanos: 0 }
        } else {
            Duration { nanos: self.nanos - other.nanos }
        }
    }
}

/// Subtraction that stops at zero.
pub open spec fn monus(a: nat, b: nat) -> nat {
    if a < b {
        0
    } else {
        (a - b) as nat
    }
}

/// Adding back what was taken away gives the old number, and there is nothing left of a number when
/// as much or more is taken away from it.
pub proof fn law_difference_adds_back(a: nat, b: nat)
    ensures
        b <= a ==> monus(a, b) + b == a,
        a <= b ==> monus(a, b) == 0,
{
}

/// A second has a thousand million nanoseconds, and the longest duration is one nanosecond short of
/// a second more than `u64::MAX` seconds.
pub proof fn law_units_of_time()
    ensures
        NANOS_PER_SEC == 1_000 * 1_000_000,
        MAX_NANOS + 1 == (u64::MAX + 1) * 1_000_000_000,
{
}

} // verus!
