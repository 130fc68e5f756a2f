//! Spans and points of time as whole nanoseconds.

use vstd::prelude::*;

verus! {

/// A span of time.
#[derive(Clone, Copy, PartialEq, Eq, Structural, Debug)]
pub struct Duration {
    pub nanos: u128,
}

/// A point in time, counted in nanoseconds from an epoch that the clock's owner fixes.
#[derive(Clone, Copy, PartialEq, Eq, Structural, Debug)]
pub struct Instant {
    pub nanos: u128,
}

impl View for Duration {
    type V = nat;

    open spec fn view(&self) -> nat {
        self.nanos as nat
    }
}

impl View for Instant {
    type V = nat;

    open spec fn view(&self) -> nat {
        self.nanos as nat
    }
}

/// `a - b`, or zero where `b` is larger.
pub open spec fn saturating_difference(a: nat, b: nat) -> nat {
    if b <= a {
        (a - b) as nat
    } else {
        0
    }
}

/// The larger of two numbers.
pub open spec fn larger(a: nat, b: nat) -> nat {
    if a < b {
        b
    } else {
        a
    }
}

impl Duration {
    /// The empty span.
    pub fn zero() -> (r: Duration)
        ensures
            r@ == 0,
    {
        Duration { nanos: 0 }
    }

    /// The span of `nanos` nanoseconds.
    pub fn from_nanos(nanos: u64) -> (r: Duration)
        ensures
            r@ == nanos,
    {
        Duration { nanos: nanos as u128 }
    }

    /// The span of `millis` milliseconds.
    pub fn from_millis(millis: u64) -> (r: Duration)
        ensures
            r@ == millis * 1_000_000,
    {
        Duration { nanos: millis as u128 * 1_000_000 }
    }

    /// The span of `secs` seconds.
    pub fn from_secs(secs: u64) -> (r: Duration)
        ensures
            r@ == secs * 1_000_000_000,
    {
        Duration { nanos: secs as u128 * 1_000_000_000 }
    }

    /// What is left of this span after `other`, or zero.
    pub fn saturating_sub(self, other: Duration) -> (r: Duration)
        ensures
            r@ == saturating_difference(self@, other@),
    {
        if other.nanos <= self.nanos {
            Duration { nanos: self.nanos - other.nanos }
        } else {
            Duration { nanos: 0 }
        }
    }

    /// The longer of two spans.
    pub fn max(self, other: Duration) -> (r: Duration)
        ensures
            r@ == larger(self@, other@),
    {
        if self.nanos < other.nanos {
            other
        } else {
            self
        }
    }

    /// The whole milliseconds of this span, of which the low 64 bits are kept.
    pub fn millis_u64(self) -> (r: u64)
        ensures
            r == (self@ / 1_000_000) % 0x1_0000_0000_0000_0000,
    {
        let whole: u128 = self.nanos / 1_000_000;
        (whole % 0x1_0000_0000_0000_0000) as u64
    }

    /// The whole minutes of this span, of which the low 64 bits are kept.
    pub fn minutes_u64(self) -> (r: u64)
        ensures
            r == (self@ / 60_000_000_000) % 0x1_0000_0000_0000_0000,
    {
        let whole: u128 = self.nanos / 60_000_000_000;
        (whole % 0x1_0000_0000_0000_0000) as u64
    }

    /// The nanoseconds of this span, of which the low 64 bits are kept.
    pub fn nanos_u64(self) -> (r: u64)
        ensures
            r == self@ % 0x1_0000_0000_0000_0000,
    {
        (self.nanos % 0x1_0000_0000_0000_0000) as u64
    }
}

impl Instant {
    /// The span from `earlier` to this point, or zero where this point is not later.
    pub fn saturating_duration_since(self, earlier: Instant) -> (r: Duration)
        ensures
            r@ == saturating_difference(self@, earlier@),
    {
        if earlier.nanos <= self.nanos {
            Duration { nanos: self.nanos - earlier.nanos }
        } else {
            Duration { nanos: 0 }
        }
    }
}

/// What is left of `a` after `b` makes up `a` again with it, and nothing is left where `b` is not
/// smaller. The larger of the two is one of them and below neither.
pub proof fn law_differences(a: nat, b: nat)
    ensures
        b <= a ==> saturating_difference(a, b) + b == a,
        a <= b ==> saturating_difference(a, b) == 0,
        larger(a, b) == a || larger(a, b) == b,
        a <= larger(a, b) && b <= larger(a, b),
{
}

} // verus!
