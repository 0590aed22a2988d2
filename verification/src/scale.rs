//! Exact scaling from coarser units to the microsecond domain.

use vstd::prelude::*;

verus! {

/// Converts whole seconds to microseconds, exactly.
pub(crate) fn seconds_to_micros(seconds: u64) -> (r: u64)
    requires
        seconds * 1_000_000 <= u64::MAX,
    ensures
        r == seconds * 1_000_000,
{
    seconds * 1_000_000
}

/// Converts whole milliseconds to microseconds, exactly.
pub(crate) fn millis_to_micros(millis: u64) -> (r: u64)
    requires
        millis * 1_000 <= u64::MAX,
    ensures
        r == millis * 1_000,
{
    millis * 1_000
}

} // verus!
