//! The boundary with the host's wall-clock timestamp type,
//! `std::time::SystemTime`.
//!
//! A host timestamp is opaque to the verifier; the name
//! [`epoch_nanos_of`] stands for its signed offset from the Unix epoch in
//! nanoseconds (negative for points before the epoch). The trusted
//! specifications below state, over that name, exactly what the standard
//! library documents of `UNIX_EPOCH`, `SystemTime::checked_add` and
//! `SystemTime::duration_since`; the conversions of [`RealTime`] are
//! verified against them.

use vstd::arithmetic::div_mod::lemma_div_multiples_vanish;
use vstd::arithmetic::div_mod::lemma_fundamental_div_mod;
use vstd::arithmetic::div_mod::lemma_hoist_over_denominator;
use vstd::prelude::*;

use crate::core_time::duration_from_micros;
use crate::core_time::secs_of;
use crate::core_time::subsec_nanos_of;
use crate::realtime::RealTime;

verus! {

#[verifier::external_type_specification]
#[verifier::external_body]
pub struct ExSystemTime(std::time::SystemTime);

#[verifier::external_type_specification]
#[verifier::external_body]
pub struct ExSystemTimeError(std::time::SystemTimeError);

/// Why a host timestamp could not be read back as a [`RealTime`].
#[derive(Debug, Clone, Copy, PartialEq, Eq, Structural)]
pub enum TimeError {
    /// The timestamp predates the Unix epoch, and an unsigned microsecond
    /// count cannot represent a negative offset.
    BeforeEpoch,
    /// The timestamp lies more than `u64::MAX` microseconds past the
    /// epoch.
    OutOfRange,
}

/// The signed offset of a host timestamp from the Unix epoch, in
/// nanoseconds; negative for points before the epoch.
pub uninterp spec fn epoch_nanos_of(t: std::time::SystemTime) -> int;

/// Relies on `std::time::UNIX_EPOCH`: the anchor of the wall-clock
/// timeline, 1970-01-01 00:00:00 UTC.
#[verifier::external_body]
fn unix_epoch() -> (r: std::time::SystemTime)
    ensures
        epoch_nanos_of(r) == 0,
{
    std::time::UNIX_EPOCH
}

/// Relies on `std::time::SystemTime::checked_add`: shifts the timestamp
/// forward by the duration, or returns `None` where the result cannot be
/// represented by the underlying platform type.
pub assume_specification [ std::time::SystemTime::checked_add ](
    t: &std::time::SystemTime,
    duration: core::time::Duration,
) -> (r: Option<std::time::SystemTime>)
    ensures
        r matches Some(s) ==> epoch_nanos_of(s) == epoch_nanos_of(*t) + secs_of(duration)
            * 1_000_000_000 + subsec_nanos_of(duration),
;

/// Relies on `std::time::SystemTime::duration_since`: returns the elapsed
/// time from `earlier` to the timestamp, or an error where `earlier` is
/// the later of the two.
pub assume_specification [ std::time::SystemTime::duration_since ](
    t: &std::time::SystemTime,
    earlier: std::time::SystemTime,
) -> (r: Result<core::time::Duration, std::time::SystemTimeError>)
    ensures
        r matches Ok(d) ==> secs_of(d) * 1_000_000_000 + subsec_nanos_of(d) == epoch_nanos_of(*t)
            - epoch_nanos_of(earlier),
        r is Ok <==> epoch_nanos_of(earlier) <= epoch_nanos_of(*t),
;

impl RealTime {
    /// Maps this timestamp to the host wall-clock timestamp type by
    /// shifting the Unix epoch forward by the stored microsecond count,
    /// expanded exactly to nanosecond precision. Returns `None` only
    /// where the shifted point cannot be represented by the platform's
    /// timestamp type (an implementation-defined ceiling, far beyond
    /// practical dates).
    pub fn to_system_time(self) -> (r: Option<std::time::SystemTime>)
        ensures
            r matches Some(ts) ==> epoch_nanos_of(ts) == self@ * 1_000,
    {
        let d = duration_from_micros(self.as_micros());
        let epoch = unix_epoch();
        proof {
            lemma_fundamental_div_mod(self@ as int, 1_000_000);
        }
        epoch.checked_add(d)
    }

    /// Reads a host wall-clock timestamp back as whole microseconds since
    /// the Unix epoch, truncating any nanosecond remainder below one
    /// microsecond toward zero. Returns `Err(TimeError::BeforeEpoch)`
    /// exactly where the timestamp predates the epoch, and
    /// `Err(TimeError::OutOfRange)` exactly where its microsecond offset
    /// exceeds `u64::MAX`.
    pub fn from_system_time(ts: std::time::SystemTime) -> (r: Result<RealTime, TimeError>)
        ensures
            r matches Ok(rt) ==> 0 <= epoch_nanos_of(ts) && rt@ == epoch_nanos_of(ts) / 1_000,
            r == Err::<RealTime, TimeError>(TimeError::BeforeEpoch) <==> epoch_nanos_of(ts) < 0,
            r == Err::<RealTime, TimeError>(TimeError::OutOfRange) <==> (0 <= epoch_nanos_of(ts)
                && epoch_nanos_of(ts) / 1_000 > u64::MAX),
    {
        let epoch = unix_epoch();
        match ts.duration_since(epoch) {
            Err(_) => Err(TimeError::BeforeEpoch),
            Ok(d) => {
                let secs: u64 = d.as_secs();
                let sub_nanos: u32 = d.subsec_nanos();
                let sub_micros: u64 = (sub_nanos / 1_000) as u64;
                proof {
                    lemma_hoist_over_denominator(
                        sub_nanos as int,
                        (secs as int) * 1_000_000,
                        1_000,
                    );
                }
                match secs.checked_mul(1_000_000) {
                    None => Err(TimeError::OutOfRange),
                    Some(m) => match m.checked_add(sub_micros) {
                        None => Err(TimeError::OutOfRange),
                        Some(micros) => Ok(RealTime::from_micros(micros)),
                    },
                }
            },
        }
    }
}

/// Round trip through the host timestamp type: a host timestamp that
/// encodes the wall-clock instant `t` the way
/// [`RealTime::to_system_time`] states it — `t@ * 1_000` nanoseconds past
/// the epoch — lies at or after the epoch, and reads back, per
/// [`RealTime::from_system_time`], as exactly `t@` microseconds. The
/// nanosecond offset of any such timestamp is a whole multiple of one
/// thousand, so nothing is truncated on the way back.
pub proof fn lemma_system_time_round_trip(t: RealTime, ts: std::time::SystemTime)
    requires
        epoch_nanos_of(ts) == t@ * 1_000,
    ensures
        0 <= epoch_nanos_of(ts),
        epoch_nanos_of(ts) / 1_000 == t@,
{
    lemma_div_multiples_vanish(t@ as int, 1_000);
}

} // verus!
