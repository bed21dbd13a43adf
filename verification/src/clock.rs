//! Points in time as plain values, the current time, and calendar days.

use vstd::prelude::*;
use chrono::{Datelike, Timelike};

verus! {

/// A date and time of day without time zone, as `chrono::NaiveDateTime`
/// holds it: the day's number counted from 0001-01-01 (day 1), the seconds
/// since midnight, and the fraction of the second in nanoseconds (a leap
/// second shows as a fraction of 1_000_000_000 or more).
#[derive(Clone, Copy, Debug, PartialEq, Eq, Structural)]
pub struct DateTimeValue {
    pub day: i32,
    pub seconds: u32,
    pub nanos: u32,
}

/// The first and last day numbers that `chrono::NaiveDate` can hold.
pub open spec fn first_day() -> int {
    -95746129
}

/// The last day number that `chrono::NaiveDate` can hold.
pub open spec fn last_day() -> int {
    95745399
}

/// Whether `a` comes strictly before `b`.
pub open spec fn earlier(a: DateTimeValue, b: DateTimeValue) -> bool {
    a.day < b.day || (a.day == b.day && (a.seconds < b.seconds || (a.seconds == b.seconds
        && a.nanos < b.nanos)))
}

/// The nanoseconds from `from` to `to` (negative where `to` is earlier).
pub open spec fn nanos_between(from: DateTimeValue, to: DateTimeValue) -> int {
    (to.day - from.day) * 86_400_000_000_000 + (to.seconds - from.seconds) * 1_000_000_000 + (
    to.nanos - from.nanos)
}

/// The whole hours in a span of `nanos` nanoseconds, rounded toward zero.
pub open spec fn whole_hours(nanos: int) -> int {
    if nanos >= 0 {
        nanos / 3_600_000_000_000
    } else {
        -((-nanos) / 3_600_000_000_000)
    }
}

/// Whether `a` comes strictly before `b`.
pub fn is_earlier(a: DateTimeValue, b: DateTimeValue) -> (res: bool)
    ensures
        res == earlier(a, b),
{
    a.day < b.day || (a.day == b.day && (a.seconds < b.seconds || (a.seconds == b.seconds
        && a.nanos < b.nanos)))
}

/// The whole hours from `from` to `to`, rounded toward zero, as
/// `(to - from).num_hours()` counts them.
pub fn hours_between(from: DateTimeValue, to: DateTimeValue) -> (res: i64)
    ensures
        res as int == whole_hours(nanos_between(from, to)),
{
    let days: i128 = to.day as i128 - from.day as i128;
    let secs: i128 = to.seconds as i128 - from.seconds as i128;
    let frac: i128 = to.nanos as i128 - from.nanos as i128;
    assert(-5_000_000_000 <= days <= 5_000_000_000);
    let span: i128 = days * 86_400_000_000_000 + secs * 1_000_000_000 + frac;
    assert(span == nanos_between(from, to));
    assert(-500_000_000_000_000_000_000_000 < span < 500_000_000_000_000_000_000_000) by (nonlinear_arith)
        requires
            -5_000_000_000 <= days <= 5_000_000_000,
            -5_000_000_000 <= secs <= 5_000_000_000,
            -5_000_000_000 <= frac <= 5_000_000_000,
            span == days * 86_400_000_000_000 + secs * 1_000_000_000 + frac,
    ;
    if span >= 0 {
        let h: u128 = (span as u128) / 3_600_000_000_000;
        assert(h < 200_000_000_000_000);
        h as i64
    } else {
        let h: u128 = ((-span) as u128) / 3_600_000_000_000;
        assert(h < 200_000_000_000_000);
        -(h as i64)
    }
}

/// Calls `chrono::Utc::now().naive_utc()` and reads its day number, seconds
/// since midnight and fraction. Of the value only chrono's own bounds are
/// stated (seconds below 86_400, fraction below 2_000_000_000); the time
/// itself depends on the clock.
#[verifier::external_body]
pub(crate) fn utc_now() -> (res: DateTimeValue)
    ensures
        res.seconds < 86_400,
        res.nanos < 2_000_000_000,
{
    let now = chrono::Utc::now().naive_utc();
    DateTimeValue {
        day: now.date().num_days_from_ce(),
        seconds: now.time().num_seconds_from_midnight(),
        nanos: now.time().nanosecond(),
    }
}

/// Calls `chrono::Utc::now().timestamp()`: the current time in whole
/// seconds since the Unix epoch. Nothing is stated of the value, which
/// depends on the clock.
#[verifier::external_body]
pub(crate) fn utc_timestamp_secs() -> i64 {
    chrono::Utc::now().timestamp()
}

/// The month and day of the month of the day numbered `day` in the
/// proleptic Gregorian calendar (day 1 is 0001-01-01). Counting from
/// 0000-03-01, so that a leap day ends its year, whole 400-year eras of
/// 146097 days are taken off, then the year within the era, then the day
/// within that year, whose month is found by the 153-days-per-five-months
/// rule.
pub open spec fn civil_month_day(day: int) -> (u32, u32) {
    let z = day + 305;
    let era = z / 146097;
    let doe = z - era * 146097;
    let yoe = (doe - doe / 1460 + doe / 36524 - doe / 146096) / 365;
    let doy = doe - (365 * yoe + yoe / 4 - yoe / 100);
    let mp = (5 * doy + 2) / 153;
    let d = doy - (153 * mp + 2) / 5 + 1;
    let m = if mp < 10 { mp + 3 } else { mp - 9 };
    (m as u32, d as u32)
}

/// The month (1 to 12) and day of the month (1 to 31) of the day numbered
/// `day`, as `chrono::NaiveDate::from_num_days_from_ce_opt` reads it: a date
/// for each day number in chrono's range, and none outside it.
#[verifier::opaque]
pub open spec fn month_and_day_of(day: i32) -> Option<(u32, u32)> {
    if first_day() <= day <= last_day() {
        Some(civil_month_day(day as int))
    } else {
        None
    }
}

/// Calls `NaiveDate::from_num_days_from_ce_opt(day)` and reads the month and
/// the day of the month: those of the proleptic Gregorian calendar for each
/// day number in chrono's range, `None` outside it. The bounds on month and
/// day are stated as well.
#[verifier::external_body]
pub(crate) fn month_and_day(day: i32) -> (res: Option<(u32, u32)>)
    ensures
        res == month_and_day_of(day),
        res matches Some((m, d)) ==> 1 <= m <= 12 && 1 <= d <= 31,
        first_day() <= day <= last_day() ==> res is Some,
{
    match chrono::NaiveDate::from_num_days_from_ce_opt(day) {
        Some(date) => Some((date.month(), date.day())),
        None => None,
    }
}

} // verus!
