//! Civil calendar dates, read from and written to epoch day counts.
//!
//! The proleptic Gregorian calendar itself is not defined here: the two
//! conversions between a day count and a (year, month, day) triple are
//! delegated to `chrono` and appear in contracts under the names
//! [`civil_of_epoch_day`] and [`epoch_day_of_civil`].

use vstd::prelude::*;
use chrono::Datelike;
use crate::arith::{checked, floor_div, floor_mod, lift, narrow};
use crate::units::TimeUnit;
use crate::error::Reason;

verus! {

/// A calendar date as plain integers.
#[derive(Clone, Copy, Debug, PartialEq, Eq, Structural)]
pub struct CivilDate {
    pub year: i32,
    pub month: u32,
    pub day: u32,
}

/// The calendar date that `chrono::NaiveDate::from_epoch_days` gives for a
/// day count relative to 1970-01-01, or `None` where it gives none.
pub uninterp spec fn civil_of_epoch_day(day: int) -> Option<CivilDate>;

/// The day count relative to 1970-01-01 that `chrono::NaiveDate::from_ymd_opt`
/// followed by `to_epoch_days` gives for a calendar date, or `None` where the
/// date does not exist or is out of range.
pub uninterp spec fn epoch_day_of_civil(year: int, month: int, day: int) -> Option<i32>;

/// Calls `chrono::NaiveDate::from_epoch_days` and reads the year, month and
/// day of the date it returns. Trusted: the result is the named value, and a
/// date that chrono returns has its month in 1..=12 and its day in 1..=31,
/// as `Datelike::month` and `Datelike::day` document.
#[verifier::external_body]
pub(crate) fn epoch_day_to_civil(day: i32) -> (r: Option<CivilDate>)
    ensures
        r == civil_of_epoch_day(day as int),
        r matches Some(d) ==> 1 <= d.month <= 12 && 1 <= d.day <= 31,
{
    let date = chrono::NaiveDate::from_epoch_days(day)?;
    Some(CivilDate { year: date.year(), month: date.month(), day: date.day() })
}

/// Calls `chrono::NaiveDate::from_ymd_opt` and then `to_epoch_days`.
/// Trusted: the result is the named value.
#[verifier::external_body]
pub(crate) fn civil_to_epoch_day(year: i32, month: u32, day: u32) -> (r: Option<i32>)
    ensures
        r == epoch_day_of_civil(year as int, month as int, day as int),
{
    let date = chrono::NaiveDate::from_ymd_opt(year, month, day)?;
    Some(date.to_epoch_days())
}

/// Whether a year of the Gregorian calendar has a 29th of February.
pub open spec fn is_leap_year(year: int) -> bool {
    year % 4 == 0 && (year % 100 != 0 || year % 400 == 0)
}

/// The number of days of a month, 1 for January to 12 for December.
pub open spec fn days_in_month(year: int, month: int) -> int {
    if month == 2 {
        if is_leap_year(year) {
            29
        } else {
            28
        }
    } else if month == 4 || month == 6 || month == 9 || month == 11 {
        30
    } else {
        31
    }
}

/// The calendar date of an epoch day, where there is one.
pub open spec fn spec_civil(day: int) -> Result<CivilDate, Reason> {
    if i32::MIN <= day <= i32::MAX {
        match civil_of_epoch_day(day) {
            Some(date) => Ok(date),
            None => Err(Reason::OutOfRange),
        }
    } else {
        Err(Reason::OutOfRange)
    }
}

/// The epoch day of a calendar date, where there is one.
pub open spec fn spec_epoch_day(year: int, month: int, day: int) -> Result<int, Reason> {
    if i32::MIN <= year <= i32::MAX {
        match epoch_day_of_civil(year, month, day) {
            Some(d) => Ok(d as int),
            None => Err(Reason::OutOfRange),
        }
    } else {
        Err(Reason::OutOfRange)
    }
}

/// The epoch day reached from `day` by moving `months` months forward, or
/// backward where `months` is negative: the same day of the month, or the
/// month's last day where the month is shorter.
pub open spec fn spec_shift_months(day: int, months: int) -> Result<int, Reason> {
    match spec_civil(day) {
        Err(e) => Err(e),
        Ok(date) => {
            let total = date.year * 12 + (date.month - 1) + months;
            let year = total / 12;
            let month = total % 12 + 1;
            let last = days_in_month(year, month);
            let dom: int = if date.day <= last { date.day as int } else { last };
            spec_epoch_day(year, month, dom)
        },
    }
}

/// The first day of the bucket of `n` months that holds `day`, buckets
/// counted from January of year 0.
pub open spec fn spec_month_floor(day: int, n: int) -> Result<int, Reason> {
    match spec_civil(day) {
        Err(e) => Err(e),
        Ok(date) => {
            let total = date.year * 12 + (date.month - 1);
            let start = total - total % n;
            spec_epoch_day(start / 12, start % 12 + 1, 1)
        },
    }
}

pub fn leap_year(year: i64) -> (r: bool)
    ensures
        r == is_leap_year(year as int),
{
    floor_mod(year, 4) == 0 && (floor_mod(year, 100) != 0 || floor_mod(year, 400) == 0)
}

pub fn month_length(year: i64, month: i64) -> (r: i64)
    ensures
        r == days_in_month(year as int, month as int),
        28 <= r <= 31,
{
    if month == 2 {
        if leap_year(year) {
            29
        } else {
            28
        }
    } else if month == 4 || month == 6 || month == 9 || month == 11 {
        30
    } else {
        31
    }
}

/// The calendar date of an epoch day.
pub fn civil_from_day(day: i64) -> (r: Result<CivilDate, Reason>)
    ensures
        r == spec_civil(day as int),
        r matches Ok(d) ==> 1 <= d.month <= 12 && 1 <= d.day <= 31,
{
    if day < i32::MIN as i64 || day > i32::MAX as i64 {
        return Err(Reason::OutOfRange);
    }
    match epoch_day_to_civil(day as i32) {
        Some(date) => Ok(date),
        None => Err(Reason::OutOfRange),
    }
}

/// The epoch day of a calendar date whose month is in 1..=12 and whose day
/// is in 1..=31.
pub fn day_from_civil(year: i64, month: i64, day: i64) -> (r: Result<i64, Reason>)
    requires
        1 <= month <= 12,
        1 <= day <= 31,
    ensures
        lift(r) == spec_epoch_day(year as int, month as int, day as int),
{
    if year < i32::MIN as i64 || year > i32::MAX as i64 {
        return Err(Reason::OutOfRange);
    }
    match civil_to_epoch_day(year as i32, month as u32, day as u32) {
        Some(d) => Ok(d as i64),
        None => Err(Reason::OutOfRange),
    }
}

/// Moves an epoch day by a number of months, clamping the day of the month.
pub fn shift_months(day: i64, months: i64) -> (r: Result<i64, Reason>)
    ensures
        lift(r) == spec_shift_months(day as int, months as int),
{
    let date = match civil_from_day(day) {
        Ok(date) => date,
        Err(e) => {
            return Err(e);
        },
    };
    let base: i64 = date.year as i64 * 12 + (date.month as i64 - 1);
    let total: i64 = match base.checked_add(months) {
        Some(total) => total,
        None => {
            return Err(Reason::OutOfRange);
        },
    };
    let year: i64 = floor_div(total, 12);
    let month: i64 = floor_mod(total, 12) + 1;
    let last: i64 = month_length(year, month);
    let dom: i64 = if date.day as i64 <= last { date.day as i64 } else { last };
    day_from_civil(year, month, dom)
}

/// The first day of the bucket of `n` months that holds `day`.
pub fn month_floor(day: i64, n: i64) -> (r: Result<i64, Reason>)
    requires
        n > 0,
    ensures
        lift(r) == spec_month_floor(day as int, n as int),
{
    let date = match civil_from_day(day) {
        Ok(date) => date,
        Err(e) => {
            return Err(e);
        },
    };
    let total: i64 = date.year as i64 * 12 + (date.month as i64 - 1);
    assert(i64::MIN <= total - (total as int) % (n as int) <= i64::MAX) by (nonlinear_arith)
        requires
            0 < n <= i64::MAX,
            -0x8_0000_0000 <= total <= 0x8_0000_0000,
    ;
    let start: i64 = total - floor_mod(total, n);
    day_from_civil(floor_div(start, 12), floor_mod(start, 12) + 1, 1)
}

/// A time of day as plain integers.
#[derive(Clone, Copy, Debug, PartialEq, Eq, Structural)]
pub struct CivilTime {
    pub hour: u32,
    pub minute: u32,
    pub second: u32,
    pub nanosecond: u32,
}

/// A calendar date with a time of day.
#[derive(Clone, Copy, Debug, PartialEq, Eq, Structural)]
pub struct CivilDateTime {
    pub date: CivilDate,
    pub time: CivilTime,
}

impl CivilTime {
    /// The time of day of four fields in which a leap second is written as
    /// a nanosecond of one second or more: such a nanosecond is folded into
    /// the last nanosecond of its second.
    pub fn folding_leap_second(hour: u32, minute: u32, second: u32, nanosecond: u32) -> (t:
        CivilTime)
        ensures
            t == (CivilTime {
                hour,
                minute,
                second,
                nanosecond: if nanosecond > 999_999_999 {
                    999_999_999u32
                } else {
                    nanosecond
                },
            }),
    {
        CivilTime {
            hour,
            minute,
            second,
            nanosecond: if nanosecond > 999_999_999 {
                999_999_999
            } else {
                nanosecond
            },
        }
    }

    /// Whether the fields name a time of day: the hour below 24, the minute
    /// and the second below 60, the nanosecond below one second.
    pub open spec fn spec_is_valid(&self) -> bool {
        self.hour < 24 && self.minute < 60 && self.second < 60 && self.nanosecond < 1_000_000_000
    }

    /// Nanoseconds since midnight.
    pub open spec fn spec_ns_of_day(&self) -> int {
        (self.hour * 3600 + self.minute * 60 + self.second) * 1_000_000_000 + self.nanosecond
    }

    #[verifier::when_used_as_spec(spec_is_valid)]
    pub fn is_valid(&self) -> (r: bool)
        ensures
            r == self.spec_is_valid(),
    {
        self.hour < 24 && self.minute < 60 && self.second < 60 && self.nanosecond < 1_000_000_000
    }

    /// Nanoseconds since midnight, for a valid time of day.
    pub fn ns_of_day(&self) -> (r: Result<i64, Reason>)
        ensures
            lift(r) == if self.spec_is_valid() {
                Ok::<int, Reason>(self.spec_ns_of_day())
            } else {
                Err::<int, Reason>(Reason::OutOfRange)
            },
            r matches Ok(v) ==> 0 <= v < 86_400_000_000_000,
    {
        if !self.is_valid() {
            return Err(Reason::OutOfRange);
        }
        let secs: i64 = self.hour as i64 * 3600 + self.minute as i64 * 60 + self.second as i64;
        Ok(secs * 1_000_000_000 + self.nanosecond as i64)
    }
}

impl CivilDateTime {
    /// The count of ticks of `tu` from 1970-01-01T00:00:00 to this date and
    /// time, sub-tick nanoseconds dropped.
    pub open spec fn spec_timestamp(&self, tu: TimeUnit) -> Result<int, Reason> {
        if !self.time.spec_is_valid() || !(1 <= self.date.month <= 12) || !(1 <= self.date.day
            <= 31) {
            Err(Reason::OutOfRange)
        } else {
            match spec_epoch_day(self.date.year as int, self.date.month as int, self.date.day as int) {
                Err(e) => Err(e),
                Ok(day) => checked(
                    day * tu.ticks_per_day() + self.time.spec_ns_of_day() / tu.ns_per_tick(),
                ),
            }
        }
    }

    /// The count of ticks of `tu` since the epoch.
    pub fn timestamp(&self, tu: TimeUnit) -> (r: Result<i64, Reason>)
        ensures
            lift(r) == self.spec_timestamp(tu),
    {
        let ns: i64 = match self.time.ns_of_day() {
            Ok(ns) => ns,
            Err(e) => {
                return Err(e);
            },
        };
        if self.date.month < 1 || self.date.month > 12 || self.date.day < 1 || self.date.day > 31 {
            return Err(Reason::OutOfRange);
        }
        match day_from_civil(self.date.year as i64, self.date.month as i64, self.date.day as i64) {
            Err(e) => Err(e),
            Ok(day) => {
                let ticks: i128 = match tu {
                    TimeUnit::Nanoseconds => day as i128 * 86_400_000_000_000 + ns as i128,
                    TimeUnit::Microseconds => day as i128 * 86_400_000_000 + (ns / 1_000) as i128,
                    TimeUnit::Milliseconds => day as i128 * 86_400_000 + (ns / 1_000_000) as i128,
                };
                narrow(ticks)
            },
        }
    }

    /// Whether the year is one whose instants fit a signed 64-bit count of
    /// nanoseconds: 1386 to 2554.
    pub open spec fn spec_in_nanoseconds_window(&self) -> bool {
        1386 <= self.date.year <= 2554
    }
}

/// Whether a date and time lies in the years 1386 to 2554, some 584 years
/// around 1970.
pub fn in_nanoseconds_window(ndt: &CivilDateTime) -> (r: bool)
    ensures
        r == ndt.spec_in_nanoseconds_window(),
{
    !(ndt.date.year > 2554 || ndt.date.year < 1386)
}

} // verus!
