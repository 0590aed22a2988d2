//! An instant on a monotonically increasing, epoch-less timeline.

use core::cmp::Ordering;
use vstd::arithmetic::div_mod::lemma_div_multiples_vanish;
use vstd::arithmetic::div_mod::lemma_fundamental_div_mod;
use vstd::prelude::*;
use vstd::std_specs::cmp::PartialOrdSpec;

use crate::core_time::duration_from_micros;
use crate::core_time::micros_from_duration;
use crate::core_time::micros_of_parts;
use crate::core_time::secs_of;
use crate::core_time::subsec_nanos_of;
use crate::duration::Duration;
use crate::scale::millis_to_micros;
use crate::scale::seconds_to_micros;

verus! {

/// An instant from a monotonically increasing clock, as a count of whole
/// microseconds past an implementation-defined zero.
///
/// Monotonic instants have no wall-clock epoch: they compare and subtract
/// only against other monotonic instants, never against [`crate::RealTime`].
/// Subtraction requires the left instant not to precede the right one, and
/// forward shifts require the result to stay within the 64-bit microsecond
/// range.
#[derive(Debug, Clone, Copy, PartialEq, Eq, Structural)]
pub struct MonotonicTime {
    micros: u64,
}

impl View for MonotonicTime {
    type V = u64;

    closed spec fn view(&self) -> u64 {
        self.micros
    }
}

impl MonotonicTime {
    /// The canonical zero instant of the monotonic timeline.
    pub fn zero() -> (r: MonotonicTime)
        ensures
            r@ == 0,
    {
        MonotonicTime { micros: 0 }
    }

    /// Creates an instant from a count of whole microseconds.
    pub fn from_micros(micros: u64) -> (r: MonotonicTime)
        ensures
            r@ == micros,
    {
        MonotonicTime { micros }
    }

    /// The instant as whole microseconds, exactly.
    pub fn as_micros(&self) -> (r: u64)
        ensures
            r == self@,
    {
        self.micros
    }

    /// Creates an instant from whole milliseconds; the count must fit the
    /// 64-bit microsecond range.
    pub fn from_millis(millis: u64) -> (r: MonotonicTime)
        requires
            millis * 1_000 <= u64::MAX,
        ensures
            r@ == millis * 1_000,
    {
        MonotonicTime { micros: millis_to_micros(millis) }
    }

    /// Creates an instant from whole seconds.
    pub fn from_seconds(seconds: u32) -> (r: MonotonicTime)
        ensures
            r@ == seconds * 1_000_000,
    {
        MonotonicTime { micros: seconds_to_micros(seconds as u64) }
    }

    /// The elapsed time from `rhs` to `self`; `self` must not precede
    /// `rhs` (a reversed subtraction is a contract violation, never a
    /// silent wrap).
    pub fn sub(self, rhs: MonotonicTime) -> (r: Duration)
        requires
            rhs@ <= self@,
        ensures
            r@ == self@ - rhs@,
    {
        Duration::from_micros(self.micros - rhs.micros)
    }

    /// The instant shifted forward by a duration; the result must fit the
    /// 64-bit microsecond range.
    pub fn add_duration(self, other: Duration) -> (r: MonotonicTime)
        requires
            self@ + other@ <= u64::MAX,
        ensures
            r@ == self@ + other@,
    {
        MonotonicTime { micros: self.micros + other.as_micros() }
    }

    /// The instant shifted forward by a host duration, truncated toward
    /// zero to whole microseconds; the result must fit the 64-bit
    /// microsecond range.
    pub fn add_core_duration(self, other: core::time::Duration) -> (r: MonotonicTime)
        requires
            self@ + micros_of_parts(secs_of(other), subsec_nanos_of(other)) <= u64::MAX,
        ensures
            r@ == self@ + micros_of_parts(secs_of(other), subsec_nanos_of(other)),
    {
        MonotonicTime { micros: self.micros + micros_from_duration(other) }
    }

    /// Re-encodes this instant as a host duration, exactly.
    ///
    /// Some host interfaces have no constructor for a monotonic instant
    /// from a raw number, so callers smuggle a monotonic timestamp inside
    /// a plain elapsed-duration value. This conversion formalizes that
    /// bridge; [`MonotonicTime::from_core_duration`] inverts it.
    pub fn to_core_duration(self) -> (r: core::time::Duration)
        ensures
            secs_of(r) == self@ / 1_000_000,
            subsec_nanos_of(r) == (self@ % 1_000_000) * 1_000,
    {
        duration_from_micros(self.micros)
    }

    /// Reads a host duration back as the monotonic instant it carries,
    /// truncating any nanosecond remainder below one microsecond toward
    /// zero. The count must fit the 64-bit microsecond range.
    pub fn from_core_duration(ctd: core::time::Duration) -> (r: MonotonicTime)
        requires
            micros_of_parts(secs_of(ctd), subsec_nanos_of(ctd)) <= u64::MAX,
        ensures
            r@ == micros_of_parts(secs_of(ctd), subsec_nanos_of(ctd)),
    {
        MonotonicTime::from_micros(micros_from_duration(ctd))
    }
}

impl PartialOrd for MonotonicTime {
    fn partial_cmp(&self, other: &MonotonicTime) -> (r: Option<Ordering>) {
        if self.micros < other.micros {
            Some(Ordering::Less)
        } else if self.micros == other.micros {
            Some(Ordering::Equal)
        } else {
            Some(Ordering::Greater)
        }
    }
}

impl vstd::std_specs::cmp::PartialOrdSpecImpl for MonotonicTime {
    open spec fn obeys_partial_cmp_spec() -> bool {
        true
    }

    open spec fn partial_cmp_spec(&self, other: &MonotonicTime) -> Option<Ordering> {
        if self@ < other@ {
            Some(Ordering::Less)
        } else if self@ == other@ {
            Some(Ordering::Equal)
        } else {
            Some(Ordering::Greater)
        }
    }
}

/// Monotonic instants are ordered and equal exactly as their microsecond
/// counts are: `a < b` holds if and only if `a` counts fewer microseconds
/// than `b`, and two instants are equal if and only if their counts
/// coincide.
pub proof fn lemma_monotonic_order_matches_micros(a: MonotonicTime, b: MonotonicTime)
    ensures
        (a.partial_cmp_spec(&b) == Some(Ordering::Less)) <==> a@ < b@,
        (a.partial_cmp_spec(&b) == Some(Ordering::Equal)) <==> a@ == b@,
        (a.partial_cmp_spec(&b) == Some(Ordering::Greater)) <==> a@ > b@,
        (a == b) <==> a@ == b@,
{
}

/// Round trip through the host duration type: a host duration that encodes
/// the instant `t` the way [`MonotonicTime::to_core_duration`] states it —
/// seconds part `t@ / 1_000_000`, nanosecond part `(t@ % 1_000_000) *
/// 1_000` — reads back, per [`MonotonicTime::from_core_duration`], as
/// exactly `t@` microseconds. The microsecond count of any instant has a
/// nanosecond remainder of zero, so nothing is truncated on the way back.
pub proof fn lemma_core_duration_round_trip(t: MonotonicTime, d: core::time::Duration)
    requires
        secs_of(d) == t@ / 1_000_000,
        subsec_nanos_of(d) == (t@ % 1_000_000) * 1_000,
    ensures
        micros_of_parts(secs_of(d), subsec_nanos_of(d)) == t@,
{
    lemma_fundamental_div_mod(t@ as int, 1_000_000);
    lemma_div_multiples_vanish(t@ as int % 1_000_000, 1_000);
}

} // verus!
