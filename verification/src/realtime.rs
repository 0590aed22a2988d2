//! An instant on the wall-clock timeline, anchored to the Unix epoch.

use core::cmp::Ordering;
use vstd::prelude::*;
use vstd::std_specs::cmp::PartialOrdSpec;

use crate::core_time::micros_from_duration;
use crate::core_time::micros_of_parts;
use crate::core_time::secs_of;
use crate::core_time::subsec_nanos_of;
use crate::duration::Duration;
use crate::scale::millis_to_micros;
use crate::scale::seconds_to_micros;

verus! {

/// A wall-clock timestamp, as a count of whole microseconds since the
/// Unix epoch.
///
/// Wall-clock instants compare and subtract only against other wall-clock
/// instants, never against [`crate::MonotonicTime`]. Subtraction requires
/// the left instant not to precede the right one, and forward shifts
/// require the result to stay within the 64-bit microsecond range.
#[derive(Debug, Clone, Copy, PartialEq, Eq, Structural)]
pub struct RealTime {
    micros: u64,
}

impl View for RealTime {
    type V = u64;

    closed spec fn view(&self) -> u64 {
        self.micros
    }
}

impl RealTime {
    /// The Unix epoch itself: the canonical zero of the wall-clock
    /// timeline.
    pub fn zero() -> (r: RealTime)
        ensures
            r@ == 0,
    {
        RealTime { micros: 0 }
    }

    /// Creates a timestamp from a count of whole microseconds since the
    /// Unix epoch.
    pub fn from_micros(micros: u64) -> (r: RealTime)
        ensures
            r@ == micros,
    {
        RealTime { micros }
    }

    /// The timestamp as whole microseconds since the Unix epoch, exactly.
    pub fn as_micros(&self) -> (r: u64)
        ensures
            r == self@,
    {
        self.micros
    }

    /// Creates a timestamp from whole milliseconds since the Unix epoch;
    /// the count must fit the 64-bit microsecond range.
    pub fn from_millis(millis: u64) -> (r: RealTime)
        requires
            millis * 1_000 <= u64::MAX,
        ensures
            r@ == millis * 1_000,
    {
        RealTime { micros: millis_to_micros(millis) }
    }

    /// Creates a timestamp from whole seconds since the Unix epoch.
    pub fn from_seconds(seconds: u32) -> (r: RealTime)
        ensures
            r@ == seconds * 1_000_000,
    {
        RealTime { micros: seconds_to_micros(seconds as u64) }
    }

    /// The elapsed time from `rhs` to `self`; `self` must not precede
    /// `rhs` (a reversed subtraction is a contract violation, never a
    /// silent wrap).
    pub fn sub(self, rhs: RealTime) -> (r: Duration)
        requires
            rhs@ <= self@,
        ensures
            r@ == self@ - rhs@,
    {
        Duration::from_micros(self.micros - rhs.micros)
    }

    /// The timestamp shifted forward by a duration; the result must fit
    /// the 64-bit microsecond range.
    pub fn add_duration(self, other: Duration) -> (r: RealTime)
        requires
            self@ + other@ <= u64::MAX,
        ensures
            r@ == self@ + other@,
    {
        RealTime { micros: self.micros + other.as_micros() }
    }

    /// The timestamp shifted forward by a host duration, truncated toward
    /// zero to whole microseconds; the result must fit the 64-bit
    /// microsecond range.
    pub fn add_core_duration(self, other: core::time::Duration) -> (r: RealTime)
        requires
            self@ + micros_of_parts(secs_of(other), subsec_nanos_of(other)) <= u64::MAX,
        ensures
            r@ == self@ + micros_of_parts(secs_of(other), subsec_nanos_of(other)),
    {
        RealTime { micros: self.micros + micros_from_duration(other) }
    }
}

impl PartialOrd for RealTime {
    fn partial_cmp(&self, other: &RealTime) -> (r: Option<Ordering>) {
        if self.micros < other.micros {
            Some(Ordering::Less)
        } else if self.micros == other.micros {
            Some(Ordering::Equal)
        } else {
            Some(Ordering::Greater)
        }
    }
}

impl vstd::std_specs::cmp::PartialOrdSpecImpl for RealTime {
    open spec fn obeys_partial_cmp_spec() -> bool {
        true
    }

    open spec fn partial_cmp_spec(&self, other: &RealTime) -> Option<Ordering> {
        if self@ < other@ {
            Some(Ordering::Less)
        } else if self@ == other@ {
            Some(Ordering::Equal)
        } else {
            Some(Ordering::Greater)
        }
    }
}

/// Wall-clock timestamps are ordered and equal exactly as their
/// microsecond counts are: `a < b` holds if and only if `a` counts fewer
/// microseconds than `b`, and two timestamps are equal if and only if
/// their counts coincide.
pub proof fn lemma_real_order_matches_micros(a: RealTime, b: RealTime)
    ensures
        (a.partial_cmp_spec(&b) == Some(Ordering::Less)) <==> a@ < b@,
        (a.partial_cmp_spec(&b) == Some(Ordering::Equal)) <==> a@ == b@,
        (a.partial_cmp_spec(&b) == Some(Ordering::Greater)) <==> a@ > b@,
        (a == b) <==> a@ == b@,
{
}

} // verus!
