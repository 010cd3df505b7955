//! A small shutdown-timer library: converts a requested delay in minutes into
//! the seconds handed to the OS shutdown command, runs a cancellable countdown
//! over clock readings, and formats the current local time.

use vstd::prelude::*;

mod clock;
pub mod countdown;
pub mod decimal;
pub mod phase;
pub mod schedule;
pub mod timefmt;

verus! {

/// Seconds per minute, the unit conversion the scheduler is built on.
pub const SECONDS_PER_MINUTE: i32 = 60;

/// Largest delay, in minutes, whose second count still fits in an `i32`.
pub const MAX_DELAY_MINUTES: i32 = 35791394;

/// Converts a requested shutdown delay from minutes to the seconds that the
/// OS command takes: exactly `minutes * 60`.
pub fn shutdown_delay_seconds(minutes: i32) -> (seconds: i32)
    requires
        1 <= minutes <= MAX_DELAY_MINUTES,
    ensures
        seconds == minutes * 60,
{
    minutes * SECONDS_PER_MINUTE
}

} // verus!
