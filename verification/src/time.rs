//! Spans of time.
//!
//! Timestamps throughout the crate are spans relative to an anchor the caller
//! picks, so that recorded streams replay without a clock.

use vstd::prelude::*;

verus! {

/// Nanoseconds in one second.
pub const NANOS_PER_SEC: u128 = 1_000_000_000;

/// Nanoseconds in one millisecond.
pub const NANOS_PER_MILLI: u128 = 1_000_000;

/// A span of time, counted in whole nanoseconds.
#[derive(Clone, Copy, Debug, PartialEq, Eq, PartialOrd, Ord, Hash, Structural)]
pub struct Duration {
    /// Length of the span in nanoseconds.
    pub nanos: u128,
}

impl View for Duration {
    type V = nat;

    open spec fn view(&self) -> nat {
        self.nanos as nat
    }
}

/// `a - b`, or zero where `b` is the larger.
pub open spec fn monus(a: nat, b: nat) -> nat {
    if a >= b {
        (a - b) as nat
    } else {
        0
    }
}

impl Duration {
    /// The empty span.
    pub fn zero() -> (d: Duration)
        ensures
            d@ == 0,
    {
        Duration { nanos: 0 }
    }

    /// A span of whole seconds.
    pub fn from_secs(secs: u64) -> (d: Duration)
        ensures
            d@ == secs * NANOS_PER_SEC,
            d.nanos == secs * 1_000_000_000,
    {
        Duration { nanos: secs as u128 * NANOS_PER_SEC }
    }

    /// A span of whole milliseconds.
    pub fn from_millis(millis: u64) -> (d: Duration)
        ensures
            d@ == millis * NANOS_PER_MILLI,
            d.nanos == millis * 1_000_000,
    {
        Duration { nanos: millis as u128 * NANOS_PER_MILLI }
    }

    /// A span of nanoseconds.
    pub fn from_nanos(nanos: u64) -> (d: Duration)
        ensures
            d@ == nanos,
            d.nanos == nanos,
    {
        Duration { nanos: nanos as u128 }
    }

    /// Length in nanoseconds.
    pub fn as_nanos(&self) -> (nanos: u128)
        ensures
            nanos == self@,
            nanos == self.nanos,
    {
        self.nanos
    }

    /// `self - other`, or the empty span where `other` is longer.
    pub fn saturating_sub(self, other: Duration) -> (d: Duration)
        ensures
            d@ == monus(self@, other@),
            other.nanos <= self.nanos ==> d.nanos + other.nanos == self.nanos,
            self.nanos <= other.nanos ==> d.nanos == 0,
    {
        if self.nanos >= other.nanos {
            Duration { nanos: self.nanos - other.nanos }
        } else {
            Duration { nanos: 0 }
        }
    }
}

/// What is left of a span and what is taken from it make up the span again; nothing is
/// left of a span that is not longer.
pub proof fn law_difference_and_rest_make_the_span(a: Duration, b: Duration)
    ensures
        b.nanos <= a.nanos ==> monus(a@, b@) + b.nanos == a.nanos,
        a.nanos <= b.nanos ==> monus(a@, b@) == 0,
{
}

} // verus!
