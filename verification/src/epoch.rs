//! Points in time, counted in days of the proleptic Gregorian calendar and
//! seconds of the day.

use vstd::prelude::*;
use chrono::Datelike;
use chrono::NaiveDate;
use chrono::TimeDelta;

verus! {

/// The first year that has a calendar date.
pub const MIN_YEAR: i32 = -262_143;

/// The last year that has a calendar date.
pub const MAX_YEAR: i32 = 262_142;

/// The Julian date, in milliseconds, of the midnight that begins day
/// number zero: Julian date 1 721 424.5.
pub const JULIAN_MILLIS_OF_DAY_ZERO: i64 = 148_731_076_800_000;

/// The day number of January 1 of `year` in the proleptic Gregorian
/// calendar, where January 1 of year 1 is day 1. A year has 365 days, and
/// one more where its number is a multiple of 4 and not of 100, or a
/// multiple of 400.
pub open spec fn new_year_day(year: int) -> int {
    let before = year - 1;
    365 * before + before / 4 - before / 100 + before / 400 + 1
}

/// The day number of the first calendar date: January 1 of [`MIN_YEAR`].
pub open spec fn first_day() -> int {
    new_year_day(MIN_YEAR as int)
}

/// The day number of the last calendar date: December 31 of
/// [`MAX_YEAR`].
pub open spec fn last_day() -> int {
    new_year_day(MAX_YEAR + 1) - 1
}

/// The day number of the date that lies `offset` days after January 1 of
/// `year`, where both that January 1 and the date reached are calendar
/// dates.
pub open spec fn day_after_new_year(year: int, offset: int) -> Option<i32> {
    let day = new_year_day(year) + offset;
    if MIN_YEAR <= year <= MAX_YEAR && first_day() <= day <= last_day() {
        Some(day as i32)
    } else {
        None
    }
}

/// Moves `offset` days on from January 1 of `year`.
///
/// This is chrono's `NaiveDate::checked_add_signed`, called on the date
/// that `NaiveDate::from_ymd_opt(year, 1, 1)` gives, with a span of
/// `offset` days from `TimeDelta::try_days`; the date it returns is handed
/// back as its `num_days_from_ce`. The contract claims that chrono counts
/// days as [`new_year_day`] does, and that it returns a date exactly when
/// `year` and the day reached lie between `NaiveDate::MIN`, which is
/// January 1 of [`MIN_YEAR`], and `NaiveDate::MAX`, which is December 31 of
/// [`MAX_YEAR`]. None of this is proved here.
#[verifier::external_body]
pub(crate) fn new_year_plus_days(year: i32, offset: i64) -> (day: Option<i32>)
    ensures
        day == day_after_new_year(year as int, offset as int),
{
    let start = NaiveDate::from_ymd_opt(year, 1, 1)?;
    let span = TimeDelta::try_days(offset)?;
    let date = start.checked_add_signed(span)?;
    Some(date.num_days_from_ce())
}

/// A point in time: a day of the proleptic Gregorian calendar and a
/// second of that day.
#[derive(Clone, Copy, Debug, PartialEq, Eq, Structural)]
pub struct Timestamp {
    /// The day number, where January 1 of year 1 is day 1.
    pub day: i32,
    /// The seconds that have passed since midnight.
    pub second: u32,
}

impl Timestamp {
    /// The seconds from the midnight that begins day zero to this point
    /// in time.
    pub open spec fn seconds(&self) -> int {
        self.day * 86_400 + self.second
    }

    /// The Julian date of this point in time, in milliseconds.
    pub open spec fn julian_date(&self) -> int {
        JULIAN_MILLIS_OF_DAY_ZERO + 1000 * self.seconds()
    }

    /// The whole seconds that pass from `earlier` to the point in time
    /// that lies `nanosecond` nanoseconds after this one, cut toward zero:
    /// half a second before `earlier` is no second, not one.
    pub open spec fn whole_seconds_since(&self, nanosecond: u32, earlier: &Timestamp) -> int {
        let seconds = self.seconds() - earlier.seconds();
        if seconds < 0 && nanosecond > 0 {
            seconds + 1
        } else {
            seconds
        }
    }

    /// The point in time `second` seconds after the midnight that begins
    /// day `day`.
    pub fn new(day: i32, second: u32) -> (timestamp: Timestamp)
        ensures
            timestamp.day == day,
            timestamp.second == second,
    {
        Timestamp { day, second }
    }

    /// The seconds that pass from `earlier` to this point in time;
    /// negative where this one comes first.
    pub fn seconds_since(&self, earlier: &Timestamp) -> (elapsed: i64)
        ensures
            elapsed == self.seconds() - earlier.seconds(),
    {
        let days: i64 = self.day as i64 - earlier.day as i64;
        let seconds: i64 = self.second as i64 - earlier.second as i64;
        days * 86_400 + seconds
    }

    /// The whole seconds that pass from `earlier` to the point in time
    /// that lies `nanosecond` nanoseconds after this one, cut toward zero.
    pub fn elapsed_since(&self, nanosecond: u32, earlier: &Timestamp) -> (elapsed: i64)
        ensures
            elapsed == self.whole_seconds_since(nanosecond, earlier),
    {
        let seconds: i64 = self.seconds_since(earlier);
        if seconds < 0 && nanosecond > 0 {
            seconds + 1
        } else {
            seconds
        }
    }

    /// The seconds that have passed since the minute began.
    pub fn second_of_minute(&self) -> (second: u32)
        ensures
            second == self.second % 60,
    {
        self.second % 60
    }

    /// The Julian date of this point in time, in milliseconds.
    pub fn julian_millis(&self) -> (jd: i64)
        ensures
            jd == self.julian_date(),
    {
        JULIAN_MILLIS_OF_DAY_ZERO + 1000 * (self.day as i64 * 86_400 + self.second as i64)
    }
}

} // verus!
