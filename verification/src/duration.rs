//! An elapsed-time magnitude with microsecond precision.

use core::cmp::Ordering;
use vstd::prelude::*;
use vstd::std_specs::cmp::PartialOrdSpec;

use crate::scale::millis_to_micros;
use crate::scale::seconds_to_micros;

verus! {

/// A magnitude of elapsed time, agnostic of clock domain.
///
/// Internally a count of whole microseconds, giving roughly 584,942 years
/// of range before the 64-bit count is exhausted. Subtraction
/// requires the left operand to be at least the right one, and addition
/// requires the sum to stay within the 64-bit range: negative or wrapped
/// elapsed times are never produced.
#[derive(Debug, Clone, Copy, PartialEq, Eq, Structural)]
pub struct Duration {
    micros: u64,
}

impl View for Duration {
    type V = u64;

    closed spec fn view(&self) -> u64 {
        self.micros
    }
}

impl Duration {
    /// The canonical zero-length duration.
    pub fn zero() -> (r: Duration)
        ensures
            r@ == 0,
    {
        Duration { micros: 0 }
    }

    /// Creates a duration from a count of whole microseconds.
    pub fn from_micros(micros: u64) -> (r: Duration)
        ensures
            r@ == micros,
    {
        Duration { micros }
    }

    /// Creates a duration from whole seconds; the count must fit the
    /// 64-bit microsecond range.
    pub fn from_seconds(seconds: u64) -> (r: Duration)
        requires
            seconds * 1_000_000 <= u64::MAX,
        ensures
            r@ == seconds * 1_000_000,
    {
        Duration { micros: seconds_to_micros(seconds) }
    }

    /// Creates a duration from whole milliseconds; the count must fit the
    /// 64-bit microsecond range.
    pub fn from_milliseconds(millis: u64) -> (r: Duration)
        requires
            millis * 1_000 <= u64::MAX,
        ensures
            r@ == millis * 1_000,
    {
        Duration { micros: millis_to_micros(millis) }
    }

    /// The total number of whole microseconds, exactly.
    pub fn as_micros(&self) -> (r: u64)
        ensures
            r == self@,
    {
        self.micros
    }

    /// The sum of two durations, at the specification level.
    pub closed spec fn spec_add(self, rhs: Duration) -> Duration {
        Duration { micros: (self.micros + rhs.micros) as u64 }
    }

    /// The difference of two durations, at the specification level.
    pub closed spec fn spec_sub(self, rhs: Duration) -> Duration {
        Duration { micros: (self.micros - rhs.micros) as u64 }
    }

    /// The sum of two durations; the sum must fit the 64-bit microsecond
    /// range (overflow is a contract violation, never a silent wrap).
    pub fn add(self, rhs: Duration) -> (r: Duration)
        requires
            self@ + rhs@ <= u64::MAX,
        ensures
            r@ == self@ + rhs@,
            r == self.spec_add(rhs),
    {
        Duration { micros: self.micros + rhs.micros }
    }

    /// The difference of two durations; the left operand must be at least
    /// the right one (underflow is a contract violation, never a silent
    /// wrap).
    pub fn sub(self, rhs: Duration) -> (r: Duration)
        requires
            rhs@ <= self@,
        ensures
            r@ == self@ - rhs@,
            r == self.spec_sub(rhs),
    {
        Duration { micros: self.micros - rhs.micros }
    }
}

impl PartialOrd for Duration {
    fn partial_cmp(&self, other: &Duration) -> (r: Option<Ordering>) {
        if self.micros < other.micros {
            Some(Ordering::Less)
        } else if self.micros == other.micros {
            Some(Ordering::Equal)
        } else {
            Some(Ordering::Greater)
        }
    }
}

impl vstd::std_specs::cmp::PartialOrdSpecImpl for Duration {
    open spec fn obeys_partial_cmp_spec() -> bool {
        true
    }

    open spec fn partial_cmp_spec(&self, other: &Duration) -> Option<Ordering> {
        if self@ < other@ {
            Some(Ordering::Less)
        } else if self@ == other@ {
            Some(Ordering::Equal)
        } else {
            Some(Ordering::Greater)
        }
    }
}

/// Durations are ordered and equal exactly as their microsecond counts
/// are: `a < b` holds if and only if `a` counts fewer microseconds than
/// `b`, and two durations are equal if and only if their counts coincide.
pub proof fn lemma_duration_order_matches_micros(a: Duration, b: Duration)
    ensures
        (a.partial_cmp_spec(&b) == Some(Ordering::Less)) <==> a@ < b@,
        (a.partial_cmp_spec(&b) == Some(Ordering::Equal)) <==> a@ == b@,
        (a.partial_cmp_spec(&b) == Some(Ordering::Greater)) <==> a@ > b@,
        (a == b) <==> a@ == b@,
{
}

/// Subtracting a duration and then adding it back restores the original:
/// for `d2 <= d1`, `(d1 - d2) + d2 == d1`.
pub proof fn lemma_sub_add_cancel(d1: Duration, d2: Duration)
    requires
        d2@ <= d1@,
    ensures
        d1.spec_sub(d2).spec_add(d2) == d1,
{
}

} // verus!
