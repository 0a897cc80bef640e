//! Dates and times, with the calendar of the `chrono` crate.

use chrono::{Datelike, NaiveDate, NaiveTime, Timelike};
use vstd::prelude::*;

use crate::convert::Convert;
use crate::errors::Error;

verus! {

/// A calendar day.
#[derive(Debug, Clone, Copy, PartialEq, Eq)]
pub struct FFIDate {
    /// The year; year 0 is 1 BCE.
    pub year: i32,
    /// The month, counted from 1.
    pub month: u32,
    /// The day of the month, counted from 1.
    pub day: u32,
}

/// A time of day.
#[derive(Debug, Clone, Copy, PartialEq, Eq)]
pub struct FFITime {
    /// The hour.
    pub hour: u32,
    /// The minute.
    pub min: u32,
    /// The second.
    pub sec: u32,
}

/// A calendar day with a time of day.
#[derive(Debug, Clone, Copy, PartialEq, Eq)]
pub struct FFIDateTime {
    /// The year; year 0 is 1 BCE.
    pub year: i32,
    /// The month, counted from 1.
    pub month: u32,
    /// The day of the month, counted from 1.
    pub day: u32,
    /// The hour.
    pub hour: u32,
    /// The minute.
    pub min: u32,
    /// The second.
    pub sec: u32,
}

/// The first year of the calendar.
pub const MIN_YEAR: i32 = -262143;

/// The last year of the calendar.
pub const MAX_YEAR: i32 = 262142;

/// The leap years of the Gregorian calendar.
pub open spec fn is_leap_year(year: int) -> bool {
    year % 4 == 0 && (year % 100 != 0 || year % 400 == 0)
}

/// The number of days of a month.
pub open spec fn days_in_month(year: int, month: int) -> int {
    if month == 2 {
        if is_leap_year(year) {
            29
        } else {
            28
        }
    } else if month == 4 || month == 6 || month == 9 || month == 11 {
        30
    } else {
        31
    }
}

/// The day exists in the calendar.
pub open spec fn is_date(year: int, month: int, day: int) -> bool {
    &&& MIN_YEAR <= year <= MAX_YEAR
    &&& 1 <= month <= 12
    &&& 1 <= day <= days_in_month(year, month)
}

/// The time exists on a day.
pub open spec fn is_time(hour: int, min: int, sec: int) -> bool {
    0 <= hour < 24 && 0 <= min < 60 && 0 <= sec < 60
}

/// `chrono::NaiveDate::from_ymd_opt`, read back as year, month and day: gives the
/// date if that day exists in the Gregorian calendar within the years that a
/// `NaiveDate` can hold, and nothing otherwise.
#[verifier::external_body]
fn date_from_ymd(year: i32, month: u32, day: u32) -> (date: Option<(i32, u32, u32)>)
    ensures
        date == (if is_date(year as int, month as int, day as int) {
            Some((year, month, day))
        } else {
            None
        }),
{
    NaiveDate::from_ymd_opt(year, month, day).map(|date| (date.year(), date.month(), date.day()))
}

/// `chrono::NaiveTime::from_hms_opt`, read back as hour, minute and second: gives
/// the time if each of the three is in its range, and nothing otherwise.
#[verifier::external_body]
fn time_from_hms(hour: u32, min: u32, sec: u32) -> (time: Option<(u32, u32, u32)>)
    ensures
        time == (if is_time(hour as int, min as int, sec as int) {
            Some((hour, min, sec))
        } else {
            None
        }),
{
    NaiveTime::from_hms_opt(hour, min, sec).map(|time| (time.hour(), time.minute(), time.second()))
}

/// `chrono::NaiveDate::MAX`, read as year, month and day: the last day that a
/// `NaiveDate` can hold, which is December 31, 262142.
#[verifier::external_body]
fn max_date() -> (date: (i32, u32, u32))
    ensures
        date == (MAX_YEAR, 12u32, 31u32),
{
    (NaiveDate::MAX.year(), NaiveDate::MAX.month(), NaiveDate::MAX.day())
}

impl FFIDate {
    /// The last day of the calendar.
    pub fn last() -> (date: FFIDate)
        ensures
            date.year == MAX_YEAR,
            date.month == 12,
            date.day == 31,
            date.fault() is None,
    {
        let (year, month, day) = max_date();
        FFIDate { year, month, day }
    }
}

impl FFITime {
    /// The first moment of a day.
    pub fn midnight() -> (time: FFITime)
        ensures
            time.hour == 0,
            time.min == 0,
            time.sec == 0,
            time.fault() is None,
    {
        let (hour, min, sec) = time_from_hms(0, 0, 0).unwrap();
        FFITime { hour, min, sec }
    }
}

impl FFIDateTime {
    /// The given time on the given day.
    pub fn new(date: FFIDate, time: FFITime) -> (datetime: FFIDateTime)
        ensures
            datetime.year == date.year,
            datetime.month == date.month,
            datetime.day == date.day,
            datetime.hour == time.hour,
            datetime.min == time.min,
            datetime.sec == time.sec,
    {
        FFIDateTime {
            year: date.year,
            month: date.month,
            day: date.day,
            hour: time.hour,
            min: time.min,
            sec: time.sec,
        }
    }
}

impl Convert for FFIDate {
    type Target = FFIDate;

    open spec fn fault(&self) -> Option<Error> {
        if is_date(self.year as int, self.month as int, self.day as int) {
            None
        } else {
            Some(Error::InvalidDateError)
        }
    }

    open spec fn becomes(&self, target: FFIDate) -> bool {
        target == *self
    }

    proof fn lemma_fault_refuses_input(&self) {
    }

    fn convert(&self) -> (result: Result<FFIDate, Error>) {
        match date_from_ymd(self.year, self.month, self.day) {
            Some((year, month, day)) => Ok(FFIDate { year, month, day }),
            None => Err(Error::InvalidDateError),
        }
    }
}

impl Convert for FFITime {
    type Target = FFITime;

    open spec fn fault(&self) -> Option<Error> {
        if is_time(self.hour as int, self.min as int, self.sec as int) {
            None
        } else {
            Some(Error::InvalidTimeError)
        }
    }

    open spec fn becomes(&self, target: FFITime) -> bool {
        target == *self
    }

    proof fn lemma_fault_refuses_input(&self) {
    }

    fn convert(&self) -> (result: Result<FFITime, Error>) {
        match time_from_hms(self.hour, self.min, self.sec) {
            Some((hour, min, sec)) => Ok(FFITime { hour, min, sec }),
            None => Err(Error::InvalidTimeError),
        }
    }
}

impl Convert for FFIDateTime {
    type Target = FFIDateTime;

    open spec fn fault(&self) -> Option<Error> {
        if is_date(self.year as int, self.month as int, self.day as int) && is_time(
            self.hour as int,
            self.min as int,
            self.sec as int,
        ) {
            None
        } else {
            Some(Error::InvalidDateTimeError)
        }
    }

    open spec fn becomes(&self, target: FFIDateTime) -> bool {
        target == *self
    }

    proof fn lemma_fault_refuses_input(&self) {
    }

    fn convert(&self) -> (result: Result<FFIDateTime, Error>) {
        match (
            date_from_ymd(self.year, self.month, self.day),
            time_from_hms(self.hour, self.min, self.sec),
        ) {
            (Some((year, month, day)), Some((hour, min, sec))) => Ok(
                FFIDateTime { year, month, day, hour, min, sec },
            ),
            _ => Err(Error::InvalidDateTimeError),
        }
    }
}

/// No date of the calendar is later than its last day, and that day is one of it.
pub proof fn lemma_last_day(year: int, month: int, day: int)
    requires
        is_date(year, month, day),
    ensures
        is_date(MAX_YEAR as int, 12, 31),
        year <= MAX_YEAR,
        year == MAX_YEAR ==> month <= 12,
        year == MAX_YEAR && month == 12 ==> day <= 31,
{
}

/// A day is refused if and only if it is no day of the calendar, a time if and only if it
/// is none of a day, and each by its own error.
pub proof fn lemma_day_and_time_are_refused_by_their_own_error(date: FFIDate, time: FFITime)
    ensures
        date.fault() is None <==> is_date(date.year as int, date.month as int, date.day as int),
        date.fault() matches Some(error) ==> error is InvalidDateError,
        time.fault() is None <==> time.hour < 24 && time.min < 60 && time.sec < 60,
        time.fault() matches Some(error) ==> error is InvalidTimeError,
{
}

/// A day with a time is accepted if and only if the day is and the time is.
pub proof fn lemma_datetime_is_a_day_and_a_time(at: FFIDateTime, date: FFIDate, time: FFITime)
    requires
        (at.year, at.month, at.day) == (date.year, date.month, date.day),
        (at.hour, at.min, at.sec) == (time.hour, time.min, time.sec),
    ensures
        at.fault() is None <==> date.fault() is None && time.fault() is None,
        at.fault() matches Some(error) ==> error is InvalidDateTimeError,
{
}

/// Days and times are handed on as they are.
pub proof fn lemma_day_and_time_are_kept(
    date: FFIDate,
    time: FFITime,
    at: FFIDateTime,
    kept_date: FFIDate,
    kept_time: FFITime,
    kept_at: FFIDateTime,
)
    ensures
        date.becomes(kept_date) <==> kept_date == date,
        time.becomes(kept_time) <==> kept_time == time,
        at.becomes(kept_at) <==> kept_at == at,
{
}

/// The calendar repeats every 400 years.
pub proof fn lemma_calendar_repeats(year: int, month: int, day: int)
    requires
        MIN_YEAR <= year,
        year + 400 <= MAX_YEAR,
    ensures
        is_date(year, month, day) <==> is_date(year + 400, month, day),
{
}

/// The days of a month are counted from its first without a gap, and a year has one day
/// more, February 29, if and only if it is a leap year.
pub proof fn lemma_days_have_no_gap(year: int, month: int, day: int)
    requires
        is_date(year, month, day),
    ensures
        forall|earlier: int| 1 <= earlier <= day ==> #[trigger] is_date(year, month, earlier),
        month != 2 ==> is_date(year, month, 30),
        is_date(year, 2, 28),
        is_date(year, 2, 29) <==> is_leap_year(year),
        is_date(year, month, 31) <==> month != 2 && month != 4 && month != 6 && month != 9 && month
            != 11,
{
}

} // verus!
