//! The boundary with the host's nanosecond-precision duration type,
//! `core::time::Duration`.
//!
//! A host duration is opaque to the verifier; the two names [`secs_of`] and
//! [`subsec_nanos_of`] stand for the whole-second part and the sub-second
//! nanosecond part that its accessors return. The trusted specifications
//! below state, over those names, exactly what the standard library
//! documents of `Duration::new`, `Duration::as_secs` and
//! `Duration::subsec_nanos`; everything else in this module is verified
//! against them.

use vstd::prelude::*;

verus! {

/// The whole-second part of a host duration: what `as_secs` returns.
pub uninterp spec fn secs_of(d: core::time::Duration) -> u64;

/// The sub-second part of a host duration, in nanoseconds: what
/// `subsec_nanos` returns. Always below one billion.
pub uninterp spec fn subsec_nanos_of(d: core::time::Duration) -> u32;

/// The whole microseconds encoded by a seconds/nanoseconds pair, with the
/// sub-microsecond nanosecond remainder truncated toward zero.
pub open spec fn micros_of_parts(secs: u64, subsec_nanos: u32) -> int {
    secs * 1_000_000 + subsec_nanos / 1_000
}

/// Relies on `core::time::Duration::new`: with a nanosecond part below one
/// billion there is no carry, so the two parts are stored as given.
pub assume_specification [ core::time::Duration::new ](secs: u64, nanos: u32) -> (r:
    core::time::Duration)
    requires
        nanos < 1_000_000_000,
    ensures
        secs_of(r) == secs,
        subsec_nanos_of(r) == nanos,
;

/// Relies on `core::time::Duration::as_secs`: returns the whole-second
/// part of the duration.
pub assume_specification [ core::time::Duration::as_secs ](d: &core::time::Duration) -> (r: u64)
    ensures
        r == secs_of(*d),
;

/// Relies on `core::time::Duration::subsec_nanos`: returns the sub-second
/// part of the duration in nanoseconds, always below one billion.
pub assume_specification [ core::time::Duration::subsec_nanos ](d: &core::time::Duration) -> (r:
    u32)
    ensures
        r == subsec_nanos_of(*d),
        r < 1_000_000_000,
;

/// Re-encodes a microsecond count as a host duration, exactly: the
/// sub-second nanosecond part is the sub-second microsecond remainder
/// scaled by one thousand.
pub(crate) fn duration_from_micros(micros: u64) -> (r: core::time::Duration)
    ensures
        secs_of(r) == micros / 1_000_000,
        subsec_nanos_of(r) == (micros % 1_000_000) * 1_000,
{
    let secs: u64 = micros / 1_000_000;
    let sub_micros: u32 = (micros % 1_000_000) as u32;
    let sub_nsec: u32 = sub_micros * 1_000;
    core::time::Duration::new(secs, sub_nsec)
}

/// Reads a host duration back as whole microseconds, truncating any
/// nanosecond remainder below one microsecond toward zero. The count must
/// fit the 64-bit microsecond range.
pub(crate) fn micros_from_duration(duration: core::time::Duration) -> (r: u64)
    requires
        micros_of_parts(secs_of(duration), subsec_nanos_of(duration)) <= u64::MAX,
    ensures
        r == micros_of_parts(secs_of(duration), subsec_nanos_of(duration)),
{
    let sub_micros: u64 = (duration.subsec_nanos() / 1_000) as u64;
    duration.as_secs() * 1_000_000 + sub_micros
}

} // verus!
