//! Monotonic time, in `embassy_time` ticks.
//!
//! Instants and durations are carried through the library as plain tick counts (`u64`), the
//! same representation `embassy_time::Instant` and `embassy_time::Duration` use internally.

use vstd::prelude::*;

verus! {

/// Number of ticks in one millisecond at the tick rate this crate is built with (1 MHz).
pub const TICKS_PER_MILLI: u64 = 1000;

/// The current time, as ticks since boot.
///
/// Calls `embassy_time::Instant::now()` and returns its tick count. Nothing is promised of the
/// value: it is whatever the time driver reports.
#[verifier::external_body]
pub(crate) fn now_ticks() -> (t: u64) {
    embassy_time::Instant::now().as_ticks()
}

/// Converts milliseconds to ticks, rounding up, as `embassy_time::Duration::from_millis` does.
///
/// Calls `embassy_time::Duration::from_millis(ms).as_ticks()`. At the 1 MHz tick rate of this
/// build that is exactly `ms * 1000`; the multiplication would overflow above
/// `u64::MAX / 1000`, so such inputs are excluded.
#[verifier::external_body]
pub(crate) fn millis_to_ticks(ms: u64) -> (t: u64)
    requires
        ms * TICKS_PER_MILLI <= u64::MAX,
    ensures
        t == ms * TICKS_PER_MILLI,
{
    embassy_time::Duration::from_millis(ms).as_ticks()
}

} // verus!
