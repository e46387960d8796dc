//! Moments of the civil calendar, and the seconds between two of them.

use vstd::prelude::*;

verus! {

pub const SECONDS_PER_MINUTE: i64 = 60;

pub const SECONDS_PER_HOUR: i64 = 3600;

pub const SECONDS_PER_DAY: i64 = 86400;

/// The largest year that a file name carries in four digits.
pub const MAX_YEAR: i32 = 9999;

/// The largest offset from UTC, in seconds: one second short of 26 hours.
pub const MAX_OFFSET: i32 = 93_599;

pub open spec fn is_leap_year(year: int) -> bool {
    year % 4 == 0 && (year % 100 != 0 || year % 400 == 0)
}

/// The days of a month of the Gregorian calendar, 0 for a month that is none.
pub open spec fn days_in_month(year: int, month: int) -> int {
    if month == 2 {
        if is_leap_year(year) {
            29
        } else {
            28
        }
    } else if month == 4 || month == 6 || month == 9 || month == 11 {
        30
    } else if 1 <= month <= 12 {
        31
    } else {
        0
    }
}

/// A date of the years that four digits write.
pub open spec fn valid_date(year: int, month: int, day: int) -> bool {
    &&& 0 <= year <= MAX_YEAR
    &&& 1 <= month <= 12
    &&& 1 <= day <= days_in_month(year, month)
}

/// Whether `year`-`month`-`day` is a date.
pub fn is_valid_date(year: i32, month: u8, day: u8) -> (valid: bool)
    ensures
        valid == valid_date(year as int, month as int, day as int),
{
    if year < 0 || year > MAX_YEAR || month < 1 || month > 12 || day < 1 {
        return false;
    }
    let leap = year % 4 == 0 && (year % 100 != 0 || year % 400 == 0);
    let days: u8 = if month == 2 {
        if leap {
            29
        } else {
            28
        }
    } else if month == 4 || month == 6 || month == 9 || month == 11 {
        30
    } else {
        31
    };
    day <= days
}

/// The Julian day number that the `time` crate gives the calendar date
/// `year`-`month`-`day`.
pub uninterp spec fn julian_day(year: int, month: int, day: int) -> int;

/// `Month::try_from`, `Date::from_calendar_date` and `Date::to_julian_day` of
/// the `time` crate, in a row. On a date of the Gregorian calendar in the
/// years 0 to 9999 the first two succeed, and the third gives the date's
/// day number, which is [`julian_day`] of the three numbers.
#[verifier::external_body]
fn day_number(year: i32, month: u8, day: u8) -> (number: i32)
    requires
        valid_date(year as int, month as int, day as int),
    ensures
        number == julian_day(year as int, month as int, day as int),
{
    let month = time::Month::try_from(month).unwrap();
    time::Date::from_calendar_date(year, month, day).unwrap().to_julian_day()
}

/// `UtcOffset::from_whole_seconds`, `OffsetDateTime::now_utc` and
/// `OffsetDateTime::checked_to_offset` of the `time` crate, in a row: the
/// year, month, day, hour, minute and second that the clock shows at
/// `offset` seconds east of UTC, `None` where the crate has no such offset
/// or no such date. The crate has no offset of 26 hours or more, so beyond
/// [`MAX_OFFSET`] there is nothing; of the numbers nothing is known.
#[verifier::external_body]
fn local_time(offset: i32) -> (now: Option<(i32, u8, u8, u8, u8, u8)>)
    ensures
        !(-MAX_OFFSET <= offset <= MAX_OFFSET) ==> now is None,
{
    let offset = time::UtcOffset::from_whole_seconds(offset).ok()?;
    let now = time::OffsetDateTime::now_utc().checked_to_offset(offset)?;
    Some((now.year(), u8::from(now.month()), now.day(), now.hour(), now.minute(), now.second()))
}

/// A moment: a calendar date and a time of day, to the second. The offset
/// from UTC at which it is read is fixed by whoever holds the value.
#[derive(Clone, Copy, Debug, PartialEq, Eq, Structural)]
pub struct Timestamp {
    pub year: i32,
    pub month: u8,
    pub day: u8,
    pub hour: u8,
    pub minute: u8,
    pub second: u8,
}

impl Timestamp {
    /// The date exists and the time of day is in range.
    pub open spec fn wf(self) -> bool {
        &&& valid_date(self.year as int, self.month as int, self.day as int)
        &&& self.hour < 24
        &&& self.minute < 60
        &&& self.second < 60
    }

    /// Seconds since the start of the day.
    pub open spec fn second_of_day(self) -> int {
        self.hour * SECONDS_PER_HOUR + self.minute * SECONDS_PER_MINUTE + self.second
    }

    /// Seconds since the start of Julian day 0.
    pub open spec fn instant(self) -> int {
        julian_day(self.year as int, self.month as int, self.day as int) * SECONDS_PER_DAY
            + self.second_of_day()
    }

    /// The moment with these six numbers, if there is one.
    pub fn new(year: i32, month: u8, day: u8, hour: u8, minute: u8, second: u8) -> (made: Option<
        Timestamp,
    >)
        ensures
            made is Some <==> (Timestamp { year, month, day, hour, minute, second }).wf(),
            made is Some ==> made->0 == (Timestamp { year, month, day, hour, minute, second }),
    {
        if is_valid_date(year, month, day) && hour < 24 && minute < 60 && second < 60 {
            Some(Timestamp { year, month, day, hour, minute, second })
        } else {
            None
        }
    }

    /// The moment that the clock shows `offset` seconds east of UTC, `None`
    /// where there is no such offset or the clock shows no moment of the
    /// years 0 to 9999. An offset beyond [`MAX_OFFSET`] is none.
    pub fn now_at(offset: i32) -> (now: Option<Timestamp>)
        ensures
            now matches Some(moment) ==> moment.wf(),
            !(-MAX_OFFSET <= offset <= MAX_OFFSET) ==> now is None,
    {
        match local_time(offset) {
            Some((year, month, day, hour, minute, second)) => Timestamp::new(
                year,
                month,
                day,
                hour,
                minute,
                second,
            ),
            None => None,
        }
    }

    /// The seconds from `earlier` to `self`, negative when `self` comes first.
    pub fn seconds_since(&self, earlier: &Timestamp) -> (elapsed: i64)
        requires
            self.wf(),
            earlier.wf(),
        ensures
            elapsed == self.instant() - earlier.instant(),
    {
        let to: i64 = day_number(self.year, self.month, self.day) as i64;
        let from: i64 = day_number(earlier.year, earlier.month, earlier.day) as i64;
        let days: i64 = to - from;
        let here: i64 = self.hour as i64 * SECONDS_PER_HOUR + self.minute as i64
            * SECONDS_PER_MINUTE + self.second as i64;
        let there: i64 = earlier.hour as i64 * SECONDS_PER_HOUR + earlier.minute as i64
            * SECONDS_PER_MINUTE + earlier.second as i64;
        days * SECONDS_PER_DAY + (here - there)
    }
}

} // verus!
