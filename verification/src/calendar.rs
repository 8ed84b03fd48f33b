//! Wall-clock fields and the rules of the proleptic Gregorian calendar.

use vstd::prelude::*;

verus! {

/// The last year that a date can have.
pub const MAX_YEAR: u32 = 262142;

/// A date and a time of day as a clock on the wall shows them, with no
/// time zone attached.
#[derive(Debug, Clone, Copy, PartialEq, Eq, Structural)]
pub struct WallClock {
    pub year: i32,
    pub month: u32,
    pub day: u32,
    pub hour: u32,
    pub minute: u32,
    pub second: u32,
}

impl WallClock {
    /// The six fields in their order: year, month, day, hour, minute,
    /// second.
    pub open spec fn fields(self) -> Seq<int> {
        seq![
            self.year as int,
            self.month as int,
            self.day as int,
            self.hour as int,
            self.minute as int,
            self.second as int,
        ]
    }

    /// Whether the fields name a day of the calendar and a second of that
    /// day.
    pub open spec fn valid(self) -> bool {
        &&& 0 <= self.year <= MAX_YEAR
        &&& 1 <= self.month <= 12
        &&& 1 <= self.day <= days_in_month(self.year as int, self.month as int)
        &&& self.hour <= 23
        &&& self.minute <= 59
        &&& self.second <= 59
    }

    /// The field at a position, counted from the year.
    pub fn field(&self, index: usize) -> (value: i64)
        requires
            index < 6,
        ensures
            value == self.fields()[index as int],
    {
        if index == 0 {
            self.year as i64
        } else if index == 1 {
            self.month as i64
        } else if index == 2 {
            self.day as i64
        } else if index == 3 {
            self.hour as i64
        } else if index == 4 {
            self.minute as i64
        } else {
            self.second as i64
        }
    }
}

/// Whether a year has a 29th of February.
pub open spec fn is_leap_year(year: int) -> bool {
    year % 4 == 0 && (year % 100 != 0 || year % 400 == 0)
}

/// The number of days of a month; 0 where the month is none.
pub open spec fn days_in_month(year: int, month: int) -> int {
    if month == 2 {
        if is_leap_year(year) {
            29
        } else {
            28
        }
    } else if month == 4 || month == 6 || month == 9 || month == 11 {
        30
    } else if 1 <= month <= 12 {
        31
    } else {
        0
    }
}

/// Whether a year has a 29th of February.
pub fn leap_year(year: u32) -> (leap: bool)
    ensures
        leap == is_leap_year(year as int),
{
    year % 4 == 0 && (year % 100 != 0 || year % 400 == 0)
}

/// The number of days of a month; 0 where the month is none.
pub fn month_length(year: u32, month: u32) -> (days: u32)
    ensures
        days == days_in_month(year as int, month as int),
{
    if month == 2 {
        if leap_year(year) {
            29
        } else {
            28
        }
    } else if month == 4 || month == 6 || month == 9 || month == 11 {
        30
    } else if 1 <= month && month <= 12 {
        31
    } else {
        0
    }
}

} // verus!
