use vstd::prelude::*;

verus! {

/// The earliest year that a calendar date can have.
pub const MIN_YEAR: i32 = -262_143;

/// The latest year that a calendar date can have.
pub const MAX_YEAR: i32 = 262_142;

pub open spec fn is_leap_year(year: int) -> bool {
    year % 4 == 0 && (year % 100 != 0 || year % 400 == 0)
}

pub open spec fn days_in_month(year: int, month: int) -> int {
    if month == 2 {
        if is_leap_year(year) { 29 } else { 28 }
    } else if month == 4 || month == 6 || month == 9 || month == 11 {
        30
    } else {
        31
    }
}

/// Whether year, month and day name a day of the proleptic Gregorian calendar
/// within the years a date can have.
pub open spec fn valid_date(year: i32, month: u32, day: u32) -> bool {
    &&& MIN_YEAR <= year <= MAX_YEAR
    &&& 1 <= month <= 12
    &&& 1 <= day <= days_in_month(year as int, month as int)
}

/// Whether hour, minute and second name a time of day.
pub open spec fn valid_time(hour: u32, minute: u32, second: u32) -> bool {
    hour < 24 && minute < 60 && second < 60
}

/// Relies on chrono's `NaiveDate::from_ymd_opt`, which returns a date exactly
/// when the year is in range and the month and day exist in it.
#[verifier::external_body]
pub(crate) fn date_exists(year: i32, month: u32, day: u32) -> (r: bool)
    ensures
        r == valid_date(year, month, day),
{
    chrono::NaiveDate::from_ymd_opt(year, month, day).is_some()
}

/// Relies on chrono's `NaiveTime::from_hms_opt`, which returns a time exactly
/// when hour, minute and second are below 24, 60 and 60.
#[verifier::external_body]
pub(crate) fn time_exists(hour: u32, minute: u32, second: u32) -> (r: bool)
    ensures
        r == valid_time(hour, minute, second),
{
    chrono::NaiveTime::from_hms_opt(hour, minute, second).is_some()
}

/// A date and time of day, without a time zone, to the second.
#[derive(Clone, Copy, Debug, PartialEq, Eq, Structural)]
pub struct LocalDateTime {
    pub year: i32,
    pub month: u32,
    pub day: u32,
    pub hour: u32,
    pub minute: u32,
    pub second: u32,
}

/// Whether `a` comes strictly before `b`.
pub open spec fn precedes(a: LocalDateTime, b: LocalDateTime) -> bool {
    if a.year != b.year {
        a.year < b.year
    } else if a.month != b.month {
        a.month < b.month
    } else if a.day != b.day {
        a.day < b.day
    } else if a.hour != b.hour {
        a.hour < b.hour
    } else if a.minute != b.minute {
        a.minute < b.minute
    } else {
        a.second < b.second
    }
}

impl LocalDateTime {
    pub open spec fn wf(&self) -> bool {
        valid_date(self.year, self.month, self.day) && valid_time(
            self.hour,
            self.minute,
            self.second,
        )
    }

    /// The date and time with these parts, when they name one.
    pub fn new(year: i32, month: u32, day: u32, hour: u32, minute: u32, second: u32) -> (r: Option<
        LocalDateTime,
    >)
        ensures
            r is Some <==> valid_date(year, month, day) && valid_time(hour, minute, second),
            r matches Some(t) ==> t == (LocalDateTime { year, month, day, hour, minute, second }),
    {
        if date_exists(year, month, day) && time_exists(hour, minute, second) {
            Some(LocalDateTime { year, month, day, hour, minute, second })
        } else {
            None
        }
    }

    /// Whether `self` comes strictly before `other`.
    pub fn is_before(&self, other: &LocalDateTime) -> (r: bool)
        ensures
            r == precedes(*self, *other),
    {
        if self.year != other.year {
            self.year < other.year
        } else if self.month != other.month {
            self.month < other.month
        } else if self.day != other.day {
            self.day < other.day
        } else if self.hour != other.hour {
            self.hour < other.hour
        } else if self.minute != other.minute {
            self.minute < other.minute
        } else {
            self.second < other.second
        }
    }
}

/// A day of the calendar.
#[derive(Clone, Copy, Debug, PartialEq, Eq, Structural)]
pub struct CalendarDate {
    pub year: i32,
    pub month: u32,
    pub day: u32,
}

impl LocalDateTime {
    /// The day on which this moment falls.
    pub fn date(&self) -> (r: CalendarDate)
        ensures
            r == (CalendarDate { year: self.year, month: self.month, day: self.day }),
    {
        CalendarDate { year: self.year, month: self.month, day: self.day }
    }
}

} // verus!
