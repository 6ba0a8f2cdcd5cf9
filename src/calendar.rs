use vstd::prelude::*;
use chrono::{Datelike, Timelike};

verus! {

/// The earliest year that a calendar date may carry.
pub const MIN_YEAR: i32 = -262143;

/// The latest year that a calendar date may carry.
pub const MAX_YEAR: i32 = 262142;

/// Leap years of the proleptic Gregorian calendar.
pub open spec fn is_leap_year(year: int) -> bool {
    (year % 4 == 0 && year % 100 != 0) || year % 400 == 0
}

pub open spec fn days_in_month(year: int, month: int) -> int {
    if month == 2 {
        if is_leap_year(year) {
            29
        } else {
            28
        }
    } else if month == 4 || month == 6 || month == 9 || month == 11 {
        30
    } else {
        31
    }
}

/// A day that exists in the proleptic Gregorian calendar, within the year range.
pub open spec fn valid_date(year: int, month: int, day: int) -> bool {
    &&& MIN_YEAR <= year <= MAX_YEAR
    &&& 1 <= month <= 12
    &&& 1 <= day <= days_in_month(year, month)
}

/// The day of the week of a valid date, counted from Monday (0) to Sunday (6).
pub uninterp spec fn weekday_index(year: int, month: int, day: int) -> int;

/// Relies on chrono's `NaiveDate::from_ymd_opt` (a date exists exactly when it is a
/// valid Gregorian date within chrono's year range) and on `weekday` with
/// `num_days_from_monday` (a number below seven, Monday being zero).
#[verifier::external_body]
fn weekday_of_date(year: i32, month: u32, day: u32) -> (r: Option<u32>)
    ensures
        r.is_some() == valid_date(year as int, month as int, day as int),
        r.is_some() ==> r.unwrap() == weekday_index(year as int, month as int, day as int),
        r.is_some() ==> r.unwrap() < 7,
{
    chrono::NaiveDate::from_ymd_opt(year, month, day).map(|d| d.weekday().num_days_from_monday())
}

/// Relies on std's `SystemTime::duration_since(UNIX_EPOCH)` on `SystemTime::now()`:
/// the whole seconds since 1970 as `Duration::as_secs` gives them, and nothing
/// where the clock reads before 1970 (the call then returns an error).
#[verifier::external_body]
fn seconds_since_epoch() -> (r: Option<u64>) {
    std::time::SystemTime::now().duration_since(std::time::UNIX_EPOCH).ok().map(|d| d.as_secs())
}

/// Relies on chrono's `DateTime::from_timestamp`, which gives `None` on an
/// out-of-range number of seconds and otherwise a date-time in chrono's year
/// range, and on its `Datelike` and `Timelike` accessors: a valid date, an hour
/// below 24, a minute and a second below 60.
#[verifier::external_body]
fn utc_from_timestamp(secs: i64) -> (r: Option<MyDateTime>)
    ensures
        r is Some ==> r->Some_0.wf(),
{
    chrono::DateTime::from_timestamp(secs, 0).map(|n| MyDateTime {
        year: n.year(),
        month: n.month(),
        day: n.day(),
        hour: n.hour(),
        minute: n.minute(),
        second: n.second(),
    })
}

/// A calendar date and a time of day, in UTC, to the second.
#[derive(Clone, Copy, Debug, PartialEq, Eq, Structural)]
pub struct MyDateTime {
    pub year: i32,
    pub month: u32,
    pub day: u32,
    pub hour: u32,
    pub minute: u32,
    pub second: u32,
}

impl MyDateTime {
    pub open spec fn wf(self) -> bool {
        &&& valid_date(self.year as int, self.month as int, self.day as int)
        &&& self.hour < 24
        &&& self.minute < 60
        &&& self.second < 60
    }

    /// The weekday of this date, Monday being zero.
    pub open spec fn weekday_spec(self) -> int {
        weekday_index(self.year as int, self.month as int, self.day as int)
    }

    /// The current date and time in UTC, to the second; `None` where the
    /// system clock reads before 1970 or beyond what a date can hold.
    pub fn new() -> (r: Option<MyDateTime>)
        ensures
            r is Some ==> r->Some_0.wf(),
    {
        match seconds_since_epoch() {
            Some(secs) => {
                if secs > i64::MAX as u64 {
                    None
                } else {
                    utc_from_timestamp(secs as i64)
                }
            },
            None => None,
        }
    }

    /// The date-time with these parts, where they name one.
    pub fn from_parts(year: i32, month: u32, day: u32, hour: u32, minute: u32, second: u32) -> (r:
        Option<MyDateTime>)
        ensures
            r.is_some() <==> (MyDateTime { year, month, day, hour, minute, second }).wf(),
            r.is_some() ==> r.unwrap() == (MyDateTime { year, month, day, hour, minute, second }),
    {
        if hour >= 24 || minute >= 60 || second >= 60 {
            return None;
        }
        match weekday_of_date(year, month, day) {
            Some(_) => Some(MyDateTime { year, month, day, hour, minute, second }),
            None => None,
        }
    }

    /// The same date-time on another day of the same month, where that day exists.
    pub fn with_day(&self, day: u32) -> (r: Option<MyDateTime>)
        requires
            self.wf(),
        ensures
            r.is_some() <==> valid_date(self.year as int, self.month as int, day as int),
            r.is_some() ==> r.unwrap() == (MyDateTime { day, ..*self }),
            r.is_some() ==> r.unwrap().wf(),
    {
        match weekday_of_date(self.year, self.month, day) {
            Some(_) => Some(MyDateTime { day, ..*self }),
            None => None,
        }
    }

    /// The same date-time at another hour of the same day, where that hour exists.
    pub fn with_hour(&self, hour: u32) -> (r: Option<MyDateTime>)
        requires
            self.wf(),
        ensures
            r.is_some() <==> hour < 24,
            r.is_some() ==> r.unwrap() == (MyDateTime { hour, ..*self }),
            r.is_some() ==> r.unwrap().wf(),
    {
        if hour < 24 {
            Some(MyDateTime { hour, ..*self })
        } else {
            None
        }
    }

    /// The day of the week, Monday being zero and Sunday six.
    pub fn weekday(&self) -> (r: u32)
        requires
            self.wf(),
        ensures
            r == self.weekday_spec(),
            r < 7,
    {
        match weekday_of_date(self.year, self.month, self.day) {
            Some(w) => w,
            None => 0,
        }
    }
}

} // verus!
