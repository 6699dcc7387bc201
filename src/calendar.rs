use chrono::Datelike;
use chrono::NaiveDate;
use vstd::prelude::*;

verus! {

/// Earliest year that a calendar date may carry.
pub const MIN_YEAR: i32 = -262143;

/// Latest year that a calendar date may carry.
pub const MAX_YEAR: i32 = 262142;

pub open spec fn is_leap_year(y: int) -> bool {
    y % 4 == 0 && (y % 100 != 0 || y % 400 == 0)
}

pub open spec fn days_in_month(y: int, m: int) -> int {
    if m == 2 {
        if is_leap_year(y) { 29 } else { 28 }
    } else if m == 4 || m == 6 || m == 9 || m == 11 {
        30
    } else {
        31
    }
}

/// A proleptic Gregorian date within the supported year range.
pub open spec fn valid_ymd(y: int, m: int, d: int) -> bool {
    &&& MIN_YEAR <= y <= MAX_YEAR
    &&& 1 <= m <= 12
    &&& 1 <= d <= days_in_month(y, m)
}

/// Number of the day in the proleptic Gregorian calendar, counting
/// January 1 of year 1 as day 1.
pub open spec fn day_number(y: int, m: int, d: int) -> int {
    let yy = if m <= 2 { y - 1 } else { y };
    let mp = if m <= 2 { m + 9 } else { m - 3 };
    365 * yy + yy / 4 - yy / 100 + yy / 400 + (153 * mp + 2) / 5 + d - 306
}

/// A calendar date without time of day.
#[derive(Clone, Copy, Debug, PartialEq, Eq, Structural)]
pub struct CalendarDate {
    pub year: i32,
    pub month: u32,
    pub day: u32,
}

impl CalendarDate {
    pub open spec fn wf(&self) -> bool {
        valid_ymd(self.year as int, self.month as int, self.day as int)
    }

    pub open spec fn ordinal(&self) -> int {
        day_number(self.year as int, self.month as int, self.day as int)
    }

    /// ISO weekday number: Monday is 1, Sunday is 7.
    pub open spec fn iso_weekday(&self) -> int {
        (self.ordinal() - 1) % 7 + 1
    }

    /// The date with the given year, month and day, if it exists.
    pub fn from_ymd(year: i32, month: u32, day: u32) -> (r: Option<CalendarDate>)
        ensures
            r is Some <==> valid_ymd(year as int, month as int, day as int),
            r matches Some(x) ==> x.year == year && x.month == month && x.day == day,
    {
        if ymd_exists(year, month, day) {
            Some(CalendarDate { year, month, day })
        } else {
            None
        }
    }

    pub fn year(&self) -> (r: i32)
        ensures
            r == self.year,
    {
        self.year
    }

    pub fn month(&self) -> (r: u32)
        ensures
            r == self.month,
    {
        self.month
    }

    pub fn day(&self) -> (r: u32)
        ensures
            r == self.day,
    {
        self.day
    }

    /// ISO weekday number of this date: Monday is 1, Sunday is 7.
    pub fn weekday_number(&self) -> (r: u32)
        requires
            self.wf(),
        ensures
            r == self.iso_weekday(),
    {
        iso_weekday_of(self)
    }

    /// Signed number of days from `earlier` to this date.
    pub fn days_since(&self, earlier: &CalendarDate) -> (r: i64)
        requires
            self.wf(),
            earlier.wf(),
        ensures
            r == self.ordinal() - earlier.ordinal(),
    {
        signed_days_between(self, earlier)
    }
}

/// Relies on chrono's `NaiveDate::from_ymd_opt`: it yields a date exactly
/// when the month and day exist in that year of the proleptic Gregorian
/// calendar and the year lies within chrono's range.
#[verifier::external_body]
fn ymd_exists(year: i32, month: u32, day: u32) -> (r: bool)
    ensures
        r == valid_ymd(year as int, month as int, day as int),
{
    NaiveDate::from_ymd_opt(year, month, day).is_some()
}

/// Relies on chrono's `Weekday::number_from_monday` of the date's
/// `weekday()`: Monday is 1 and Sunday is 7, and January 1 of year 1 is a
/// Monday.
#[verifier::external_body]
fn iso_weekday_of(d: &CalendarDate) -> (r: u32)
    requires
        d.wf(),
    ensures
        r == d.iso_weekday(),
{
    NaiveDate::from_ymd_opt(d.year, d.month, d.day).unwrap().weekday().number_from_monday()
}

/// Relies on chrono's `NaiveDate::signed_duration_since` and
/// `TimeDelta::num_days`: the whole number of days between two dates.
#[verifier::external_body]
fn signed_days_between(later: &CalendarDate, earlier: &CalendarDate) -> (r: i64)
    requires
        later.wf(),
        earlier.wf(),
    ensures
        r == later.ordinal() - earlier.ordinal(),
{
    let a = NaiveDate::from_ymd_opt(later.year, later.month, later.day).unwrap();
    let b = NaiveDate::from_ymd_opt(earlier.year, earlier.month, earlier.day).unwrap();
    a.signed_duration_since(b).num_days()
}

} // verus!
