//! The one place the library touches the system clock, through chrono.

use vstd::prelude::*;
use chrono::{Datelike, Local, Timelike};
use crate::timefmt::TimeParts;

verus! {

/// One reading of the local clock: its calendar fields and its epoch second.
pub struct ClockReading {
    pub parts: TimeParts,
    pub epoch_seconds: i64,
}

/// Relies on chrono's `Local::now`, read out through the `Datelike` and
/// `Timelike` accessors and `DateTime::timestamp`: month ranges over 1 to 12,
/// day over 1 to 31, hour over 0 to 23, minute and second over 0 to 59.
/// Nothing is promised of the year or of the epoch second, nor of two
/// readings agreeing with each other.
#[verifier::external_body]
pub(crate) fn read_clock() -> (c: ClockReading)
    ensures
        c.parts.valid(),
{
    let t = Local::now();
    ClockReading {
        parts: TimeParts {
            year: t.year(),
            month: t.month(),
            day: t.day(),
            hour: t.hour(),
            minute: t.minute(),
            second: t.second(),
        },
        epoch_seconds: t.timestamp(),
    }
}

} // verus!
