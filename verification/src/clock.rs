//! The local date and time, as the periodic time announcement needs them.

use chrono::{Datelike, Timelike};
use vstd::prelude::*;

verus! {

/// A reading of the local calendar and clock.
#[derive(Debug, Clone, Copy, PartialEq, Eq, Structural)]
pub struct WallClock {
    pub year: i32,
    /// Month of the year, from 1.
    pub month: u32,
    /// Day of the month, from 1.
    pub day: u32,
    pub hour: u32,
    pub minute: u32,
    pub second: u32,
    /// Day of the week, from 1 for Monday to 7 for Sunday.
    pub day_of_week: u32,
}

impl WallClock {
    /// Every part is one that a calendar and a clock can show.
    pub open spec fn in_range(self) -> bool {
        &&& 1 <= self.month <= 12
        &&& 1 <= self.day <= 31
        &&& self.hour <= 23
        &&& self.minute <= 59
        &&& self.second <= 59
        &&& 1 <= self.day_of_week <= 7
    }

    /// Reads the local date and time.
    ///
    /// Calls `chrono::Local::now` and takes the reading apart with
    /// `Datelike::{year, month, day, weekday}`, `Weekday::number_from_monday`
    /// and `Timelike::{hour, minute, second}`. Nothing is proved of these:
    /// taken on trust is that each part lies in the range that chrono
    /// documents for it. Which reading comes back is not said. chrono panics
    /// where the system clock stands before 1970, and where the time-zone
    /// table of the machine holds no local time type for the instant.
    #[verifier::external_body]
    pub(crate) fn now() -> (reading: WallClock)
        ensures
            reading.in_range(),
    {
        let now = chrono::Local::now();
        WallClock {
            year: now.year(),
            month: now.month(),
            day: now.day(),
            hour: now.hour(),
            minute: now.minute(),
            second: now.second(),
            day_of_week: now.weekday().number_from_monday(),
        }
    }
}

} // verus!
