//! Strongly-typed, fixed-precision time values.
//!
//! Three value types, each backed by an unsigned 64-bit microsecond count:
//!
//! - [`Duration`]: an elapsed-time magnitude, agnostic of clock domain.
//! - [`MonotonicTime`]: an instant on a monotonically increasing, epoch-less
//!   timeline.
//! - [`RealTime`]: an instant on the wall-clock timeline, anchored to the
//!   Unix epoch.
//!
//! Keeping the three concepts as distinct nominal types rules out
//! unit-confusion and clock-domain-confusion at compile time: no operation
//! mixes a `MonotonicTime` with a `RealTime`, and every constructor states
//! the unit of its argument. At the boundary, values convert losslessly to
//! and from the host representations `core::time::Duration` (nanosecond
//! precision, truncated toward zero to whole microseconds on import) and
//! `std::time::SystemTime` (wall-clock timestamps relative to the epoch).

mod core_time;
mod duration;
mod monotonic;
mod realtime;
mod scale;
mod std_time;

pub use core_time::micros_of_parts;
pub use core_time::secs_of;
pub use core_time::subsec_nanos_of;
pub use duration::lemma_duration_order_matches_micros;
pub use duration::lemma_sub_add_cancel;
pub use duration::Duration;
pub use monotonic::lemma_core_duration_round_trip;
pub use monotonic::lemma_monotonic_order_matches_micros;
pub use monotonic::MonotonicTime;
pub use realtime::lemma_real_order_matches_micros;
pub use realtime::RealTime;
pub use std_time::epoch_nanos_of;
pub use std_time::lemma_system_time_round_trip;
pub use std_time::TimeError;
