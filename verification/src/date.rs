//! Dates and times of day, written out in Russian.

use vstd::prelude::*;
use chrono::{Datelike, Timelike};
use crate::text::{
    append_decimal, append_signed, append_two_digits, decimal, signed_decimal, two_digits,
};

verus! {

/// Hours by which the written time of day runs ahead of the given one.
pub const HOUR_SHIFT: u32 = 3;

/// A calendar date with a time of day, as plain numbers.
#[derive(Debug, Clone, Copy, PartialEq, Eq, Structural)]
pub struct CivilTime {
    /// Day of the week, counted from Sunday as 0.
    pub weekday: u32,
    /// Day of the month, from 1.
    pub day: u32,
    /// Month of the year, from 1.
    pub month: u32,
    pub year: i32,
    /// Hour of the day, from 0.
    pub hour: u32,
    pub minute: u32,
}

impl CivilTime {
    /// Every field lies in the range of the calendar and the clock.
    pub open spec fn valid(&self) -> bool {
        &&& self.weekday < 7
        &&& 1 <= self.day <= 31
        &&& 1 <= self.month <= 12
        &&& self.hour < 24
        &&& self.minute < 60
    }

    /// Whether every field lies in the range of the calendar and the clock.
    pub fn is_valid(&self) -> (ok: bool)
        ensures
            ok == self.valid(),
    {
        self.weekday < 7 && 1 <= self.day && self.day <= 31 && 1 <= self.month && self.month <= 12
            && self.hour < 24 && self.minute < 60
    }
}

/// The name of a day of the week, counted from Sunday as 0.
pub open spec fn weekday_name(weekday: int) -> Seq<char> {
    if weekday == 0 {
        "воскресенье"@
    } else if weekday == 1 {
        "понедельник"@
    } else if weekday == 2 {
        "вторник"@
    } else if weekday == 3 {
        "среда"@
    } else if weekday == 4 {
        "четверг"@
    } else if weekday == 5 {
        "пятница"@
    } else {
        "суббота"@
    }
}

/// The name of a month as it stands after a day number, counted from 1.
pub open spec fn month_name(month: int) -> Seq<char> {
    if month == 1 {
        "января"@
    } else if month == 2 {
        "февраля"@
    } else if month == 3 {
        "марта"@
    } else if month == 4 {
        "апреля"@
    } else if month == 5 {
        "мая"@
    } else if month == 6 {
        "июня"@
    } else if month == 7 {
        "июля"@
    } else if month == 8 {
        "августа"@
    } else if month == 9 {
        "сентября"@
    } else if month == 10 {
        "октября"@
    } else if month == 11 {
        "ноября"@
    } else {
        "декабря"@
    }
}

/// The written form of `t`: weekday, day, month and year, then the time of
/// day `HOUR_SHIFT` hours on. The hour is not wrapped at midnight and the
/// date is not moved with it.
pub open spec fn russian_datetime(t: CivilTime) -> Seq<char> {
    weekday_name(t.weekday as int) + ", "@ + decimal(t.day as nat) + " "@ + month_name(
        t.month as int,
    ) + " "@ + signed_decimal(t.year as int) + " года, "@ + two_digits(
        (t.hour + HOUR_SHIFT) as nat,
    ) + ":"@ + two_digits(t.minute as nat)
}

fn weekday_str(weekday: u32) -> (name: &'static str)
    ensures
        name@ == weekday_name(weekday as int),
{
    if weekday == 0 {
        "воскресенье"
    } else if weekday == 1 {
        "понедельник"
    } else if weekday == 2 {
        "вторник"
    } else if weekday == 3 {
        "среда"
    } else if weekday == 4 {
        "четверг"
    } else if weekday == 5 {
        "пятница"
    } else {
        "суббота"
    }
}

fn month_str(month: u32) -> (name: &'static str)
    ensures
        name@ == month_name(month as int),
{
    if month == 1 {
        "января"
    } else if month == 2 {
        "февраля"
    } else if month == 3 {
        "марта"
    } else if month == 4 {
        "апреля"
    } else if month == 5 {
        "мая"
    } else if month == 6 {
        "июня"
    } else if month == 7 {
        "июля"
    } else if month == 8 {
        "августа"
    } else if month == 9 {
        "сентября"
    } else if month == 10 {
        "октября"
    } else if month == 11 {
        "ноября"
    } else {
        "декабря"
    }
}

/// Writes `t` out in Russian.
pub fn format_civil_time(t: &CivilTime) -> (out: String)
    requires
        t.valid(),
    ensures
        out@ == russian_datetime(*t),
{
    let mut out = String::new();
    out.append(weekday_str(t.weekday));
    out.append(", ");
    append_decimal(&mut out, t.day as u64);
    out.append(" ");
    out.append(month_str(t.month));
    out.append(" ");
    append_signed(&mut out, t.year as i64);
    out.append(" года, ");
    append_two_digits(&mut out, (t.hour + HOUR_SHIFT) as u64);
    out.append(":");
    append_two_digits(&mut out, t.minute as u64);
    assert(out@ == russian_datetime(*t));
    out
}

/// `chrono::NaiveDateTime`, a date and time of day without a time zone. The
/// value is carried as it is; its parts are read through the functions
/// below.
#[verifier::external_type_specification]
#[verifier::external_body]
pub struct ExNaiveDateTime(chrono::NaiveDateTime);

/// Calls `weekday` of `chrono::Datelike` and `num_days_from_sunday` on its
/// result, which numbers the days of the week from Sunday = 0 to
/// Saturday = 6.
#[verifier::external_body]
fn weekday_from_sunday(dt: &chrono::NaiveDateTime) -> (weekday: u32)
    ensures
        weekday < 7,
{
    dt.weekday().num_days_from_sunday()
}

/// Calls `day` of `chrono::Datelike`: the day of the month, from 1 to 31.
#[verifier::external_body]
fn day_of_month(dt: &chrono::NaiveDateTime) -> (day: u32)
    ensures
        1 <= day <= 31,
{
    dt.day()
}

/// Calls `month` of `chrono::Datelike`: the month number, from 1 to 12.
#[verifier::external_body]
fn month_of_year(dt: &chrono::NaiveDateTime) -> (month: u32)
    ensures
        1 <= month <= 12,
{
    dt.month()
}

/// Calls `year` of `chrono::Datelike`: the year number.
#[verifier::external_body]
fn year_of(dt: &chrono::NaiveDateTime) -> (year: i32) {
    dt.year()
}

/// Calls `hour` of `chrono::Timelike`: the hour number, from 0 to 23.
#[verifier::external_body]
fn hour_of_day(dt: &chrono::NaiveDateTime) -> (hour: u32)
    ensures
        hour < 24,
{
    dt.hour()
}

/// Calls `minute` of `chrono::Timelike`: the minute number, from 0 to 59.
#[verifier::external_body]
fn minute_of_hour(dt: &chrono::NaiveDateTime) -> (minute: u32)
    ensures
        minute < 60,
{
    dt.minute()
}

/// Reads the calendar date and the time of day of `dt`.
pub fn civil_time(dt: &chrono::NaiveDateTime) -> (t: CivilTime)
    ensures
        t.valid(),
{
    CivilTime {
        weekday: weekday_from_sunday(dt),
        day: day_of_month(dt),
        month: month_of_year(dt),
        year: year_of(dt),
        hour: hour_of_day(dt),
        minute: minute_of_hour(dt),
    }
}

/// Writes `dt` out in Russian: the written form of the calendar date and
/// time of day that `dt` holds.
pub fn format_datetime_russian(dt: chrono::NaiveDateTime) -> (out: String)
    ensures
        exists|t: CivilTime| t.valid() && out@ == russian_datetime(t),
{
    let t = civil_time(&dt);
    format_civil_time(&t)
}

} // verus!
