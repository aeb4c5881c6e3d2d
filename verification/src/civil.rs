//! Civil (wall-clock) dates and times in the proleptic Gregorian calendar,
//! and how they count in seconds.

use vstd::prelude::*;

verus! {

/// First year that a civil value can name.
pub const MIN_YEAR: i32 = 0;

/// Last year that a civil value can name: the grammar has four year digits.
pub const MAX_YEAR: i32 = 9999;

/// Days from 0000-01-01 to 1970-01-01 in the proleptic Gregorian calendar.
pub const EPOCH_DAY: i64 = 719_528;

/// 0000-01-01 00:00:00, counted in seconds from 1970-01-01 00:00:00.
pub const FIRST_SECOND: i64 = -62_167_219_200;

/// 9999-12-31 23:59:59, counted in seconds from 1970-01-01 00:00:00.
pub const LAST_SECOND: i64 = 253_402_300_799;

pub const SECONDS_PER_MINUTE: i64 = 60;

pub const SECONDS_PER_HOUR: i64 = 3_600;

pub const SECONDS_PER_DAY: i64 = 86_400;

/// Whether `year` has a 29th of February.
pub open spec fn is_leap_year(year: int) -> bool {
    year % 4 == 0 && (year % 100 != 0 || year % 400 == 0)
}

/// Number of days of `month` (1 to 12) in `year`.
pub open spec fn days_in_month(year: int, month: int) -> int {
    if month == 2 {
        if is_leap_year(year) {
            29
        } else {
            28
        }
    } else if month == 4 || month == 6 || month == 9 || month == 11 {
        30
    } else {
        31
    }
}

/// Days from 0000-01-01 to the first of January of `year`, for `year >= 0`:
/// 365 for each year and one more for each leap year among them.
pub open spec fn days_before_year(year: int) -> int {
    365 * year + (year + 3) / 4 - (year + 99) / 100 + (year + 399) / 400
}

/// Days from the first of January to the first of `month` in a year that is
/// not a leap year.
pub open spec fn days_before_month_common(month: int) -> int {
    if month <= 1 {
        0
    } else if month == 2 {
        31
    } else if month == 3 {
        59
    } else if month == 4 {
        90
    } else if month == 5 {
        120
    } else if month == 6 {
        151
    } else if month == 7 {
        181
    } else if month == 8 {
        212
    } else if month == 9 {
        243
    } else if month == 10 {
        273
    } else if month == 11 {
        304
    } else {
        334
    }
}

/// Days from the first of January of `year` to the first of `month`.
pub open spec fn days_before_month(year: int, month: int) -> int {
    days_before_month_common(month) + if month > 2 && is_leap_year(year) {
        1int
    } else {
        0int
    }
}

/// Days from 1970-01-01 to the given date; negative before it.
pub open spec fn days_from_epoch(year: int, month: int, day: int) -> int {
    days_before_year(year) + days_before_month(year, month) + (day - 1) - EPOCH_DAY
}

/// A wall-clock date and time without a zone, to the minute.
#[derive(Clone, Copy, Debug, PartialEq, Eq, Structural)]
pub struct CivilDateTime {
    pub year: i32,
    pub month: u32,
    pub day: u32,
    pub hour: u32,
    pub minute: u32,
}

impl CivilDateTime {
    /// The value names a minute that a calendar and a 24-hour clock show.
    pub open spec fn is_valid(&self) -> bool {
        &&& MIN_YEAR <= self.year <= MAX_YEAR
        &&& 1 <= self.month <= 12
        &&& 1 <= self.day <= days_in_month(self.year as int, self.month as int)
        &&& self.hour < 24
        &&& self.minute < 60
    }

    /// Seconds from 1970-01-01 00:00:00 to this wall-clock reading, both
    /// read on the same clock.
    pub open spec fn seconds(&self) -> int {
        days_from_epoch(self.year as int, self.month as int, self.day as int) * SECONDS_PER_DAY
            + self.hour * SECONDS_PER_HOUR + self.minute * SECONDS_PER_MINUTE
    }

    /// Builds the value if the fields name an existing minute.
    pub fn new(year: i32, month: u32, day: u32, hour: u32, minute: u32) -> (r: Option<
        CivilDateTime,
    >)
        ensures
            r == (if (CivilDateTime { year, month, day, hour, minute }).is_valid() {
                Some(CivilDateTime { year, month, day, hour, minute })
            } else {
                None
            }),
    {
        if year < MIN_YEAR || year > MAX_YEAR || month < 1 || month > 12 || hour >= 24 || minute
            >= 60 {
            return None;
        }
        if day < 1 || day > month_length(year, month) {
            return None;
        }
        Some(CivilDateTime { year, month, day, hour, minute })
    }

    /// Seconds from 1970-01-01 00:00:00 to this reading.
    pub fn epoch_seconds(&self) -> (r: i64)
        requires
            self.is_valid(),
        ensures
            r == self.seconds(),
    {
        let y: i64 = self.year as i64;
        let leap: bool = leap_year(self.year);
        let before_year: i64 = 365 * y + (y + 3) / 4 - (y + 99) / 100 + (y + 399) / 400;
        let common: i64 = days_to_month(self.month);
        let before_month: i64 = if self.month > 2 && leap {
            common + 1
        } else {
            common
        };
        let days: i64 = before_year + before_month + (self.day as i64 - 1) - EPOCH_DAY;
        days * SECONDS_PER_DAY + (self.hour as i64) * SECONDS_PER_HOUR + (self.minute as i64)
            * SECONDS_PER_MINUTE
    }
}

/// A valid civil value lies in the four-digit years, and leaves room for the
/// seconds of its minute.
pub proof fn lemma_seconds_in_range(civil: CivilDateTime)
    requires
        civil.is_valid(),
    ensures
        FIRST_SECOND <= civil.seconds() <= LAST_SECOND - 59,
{
    let y = civil.year as int;
    let m = civil.month as int;
    assert(0 <= days_before_year(y) <= 3_652_060);
    assert(0 <= days_before_month(y, m) + (civil.day - 1) <= 365);
}

/// Number of days of `year`.
pub open spec fn days_in_year(year: int) -> int {
    if is_leap_year(year) {
        366
    } else {
        365
    }
}

/// The first of January of the next year comes one year's days later.
proof fn lemma_next_year(year: int)
    requires
        0 <= year,
    ensures
        days_before_year(year + 1) == days_before_year(year) + days_in_year(year),
{
}

/// A later year starts later, by at least 365 days for each year between.
proof fn lemma_years_grow(earlier: int, later: int)
    requires
        0 <= earlier <= later,
    ensures
        days_before_year(later) >= days_before_year(earlier) + 365 * (later - earlier),
    decreases later - earlier,
{
    if earlier < later {
        lemma_years_grow(earlier, later - 1);
        lemma_next_year(later - 1);
    }
}

/// Two dates on the same day since the epoch are the same date.
proof fn lemma_days_are_injective(a: CivilDateTime, b: CivilDateTime)
    requires
        a.is_valid(),
        b.is_valid(),
        days_from_epoch(a.year as int, a.month as int, a.day as int) == days_from_epoch(
            b.year as int,
            b.month as int,
            b.day as int,
        ),
    ensures
        a.year == b.year,
        a.month == b.month,
        a.day == b.day,
{
    let day_a = days_before_month(a.year as int, a.month as int) + a.day - 1;
    let day_b = days_before_month(b.year as int, b.month as int) + b.day - 1;
    assert(0 <= day_a < days_in_year(a.year as int));
    assert(0 <= day_b < days_in_year(b.year as int));
    if a.year < b.year {
        lemma_next_year(a.year as int);
        lemma_years_grow(a.year + 1, b.year as int);
    } else if b.year < a.year {
        lemma_next_year(b.year as int);
        lemma_years_grow(b.year + 1, a.year as int);
    }
}

/// A civil value and a second of its minute are fixed by the count of
/// seconds: no two readings of a clock name the same second.
pub proof fn lemma_seconds_are_injective(a: CivilDateTime, second_a: int, b: CivilDateTime, second_b: int)
    requires
        a.is_valid(),
        b.is_valid(),
        0 <= second_a < 60,
        0 <= second_b < 60,
        a.seconds() + second_a == b.seconds() + second_b,
    ensures
        a == b,
        second_a == second_b,
{
    let days_a = days_from_epoch(a.year as int, a.month as int, a.day as int);
    let days_b = days_from_epoch(b.year as int, b.month as int, b.day as int);
    let rest_a = a.hour * SECONDS_PER_HOUR + a.minute * SECONDS_PER_MINUTE + second_a;
    let rest_b = b.hour * SECONDS_PER_HOUR + b.minute * SECONDS_PER_MINUTE + second_b;
    assert(0 <= rest_a < SECONDS_PER_DAY);
    assert(0 <= rest_b < SECONDS_PER_DAY);
    assert(days_a * SECONDS_PER_DAY + rest_a == days_b * SECONDS_PER_DAY + rest_b);
    assert(days_a == days_b);
    lemma_days_are_injective(a, b);
}

/// On a calendar and a clock, the second `second_a` of the minute `a` comes
/// before the second `second_b` of the minute `b`.
pub open spec fn reads_before(
    a: CivilDateTime,
    second_a: int,
    b: CivilDateTime,
    second_b: int,
) -> bool {
    ||| a.year < b.year
    ||| a.year == b.year && a.month < b.month
    ||| a.year == b.year && a.month == b.month && a.day < b.day
    ||| a.year == b.year && a.month == b.month && a.day == b.day && a.hour < b.hour
    ||| a.year == b.year && a.month == b.month && a.day == b.day && a.hour == b.hour && a.minute
        < b.minute
    ||| a == b && second_a < second_b
}

/// A date that comes earlier on the calendar is fewer days from the epoch.
proof fn lemma_days_are_monotone(a: CivilDateTime, b: CivilDateTime)
    requires
        a.is_valid(),
        b.is_valid(),
        a.year < b.year || (a.year == b.year && (a.month < b.month || (a.month == b.month && a.day
            < b.day))),
    ensures
        days_from_epoch(a.year as int, a.month as int, a.day as int) < days_from_epoch(
            b.year as int,
            b.month as int,
            b.day as int,
        ),
{
    let day_a = days_before_month(a.year as int, a.month as int) + a.day - 1;
    let day_b = days_before_month(b.year as int, b.month as int) + b.day - 1;
    assert(0 <= day_a < days_in_year(a.year as int));
    assert(0 <= day_b < days_in_year(b.year as int));
    if a.year < b.year {
        lemma_next_year(a.year as int);
        lemma_years_grow(a.year + 1, b.year as int);
    }
}

/// What comes earlier on a calendar and a clock is fewer seconds from the
/// epoch: the count of seconds keeps the order of the readings.
pub proof fn lemma_seconds_are_monotone(
    a: CivilDateTime,
    second_a: int,
    b: CivilDateTime,
    second_b: int,
)
    requires
        a.is_valid(),
        b.is_valid(),
        0 <= second_a < 60,
        0 <= second_b < 60,
        reads_before(a, second_a, b, second_b),
    ensures
        a.seconds() + second_a < b.seconds() + second_b,
{
    let days_a = days_from_epoch(a.year as int, a.month as int, a.day as int);
    let days_b = days_from_epoch(b.year as int, b.month as int, b.day as int);
    let rest_a = a.hour * SECONDS_PER_HOUR + a.minute * SECONDS_PER_MINUTE + second_a;
    let rest_b = b.hour * SECONDS_PER_HOUR + b.minute * SECONDS_PER_MINUTE + second_b;
    assert(0 <= rest_a < SECONDS_PER_DAY);
    assert(0 <= rest_b < SECONDS_PER_DAY);
    if a.year == b.year && a.month == b.month && a.day == b.day {
        assert(rest_a < rest_b);
    } else {
        lemma_days_are_monotone(a, b);
        assert(days_a + 1 <= days_b);
        assert(days_a * SECONDS_PER_DAY + SECONDS_PER_DAY <= days_b * SECONDS_PER_DAY);
    }
}

/// The midnight that starts the day after the day of `civil`.
pub open spec fn next_midnight(civil: CivilDateTime) -> CivilDateTime {
    if civil.day < days_in_month(civil.year as int, civil.month as int) {
        CivilDateTime {
            year: civil.year,
            month: civil.month,
            day: (civil.day + 1) as u32,
            hour: 0,
            minute: 0,
        }
    } else if civil.month < 12 {
        CivilDateTime { year: civil.year, month: (civil.month + 1) as u32, day: 1, hour: 0, minute: 0 }
    } else {
        CivilDateTime { year: (civil.year + 1) as i32, month: 1, day: 1, hour: 0, minute: 0 }
    }
}

/// The next midnight is one day's seconds after the midnight of the day.
proof fn lemma_next_midnight(civil: CivilDateTime)
    requires
        civil.is_valid(),
        civil.hour == 0,
        civil.minute == 0,
    ensures
        next_midnight(civil).seconds() == civil.seconds() + SECONDS_PER_DAY,
        civil.year < MAX_YEAR ==> next_midnight(civil).is_valid(),
        next_midnight(civil).seconds() <= LAST_SECOND ==> next_midnight(civil).is_valid(),
{
    lemma_next_year(civil.year as int);
    if civil.year == MAX_YEAR {
        assert(days_before_year(10_000) == 3_652_425);
    }
}

/// Every day of the four-digit years has a date: counting days from the
/// epoch reaches each of them.
proof fn lemma_every_day_has_a_date(day: int)
    requires
        FIRST_SECOND <= day * SECONDS_PER_DAY <= LAST_SECOND,
    ensures
        exists|civil: CivilDateTime|
            civil.is_valid() && civil.hour == 0 && civil.minute == 0 && #[trigger] civil.seconds()
                == day * SECONDS_PER_DAY,
    decreases day + EPOCH_DAY,
{
    if day == -EPOCH_DAY {
        let first = CivilDateTime { year: 0, month: 1, day: 1, hour: 0, minute: 0 };
        assert(first.is_valid() && first.seconds() == day * SECONDS_PER_DAY);
    } else {
        lemma_every_day_has_a_date(day - 1);
        let before = choose|civil: CivilDateTime|
            civil.is_valid() && civil.hour == 0 && civil.minute == 0 && #[trigger] civil.seconds()
                == (day - 1) * SECONDS_PER_DAY;
        lemma_next_midnight(before);
        let found = next_midnight(before);
        assert(found.is_valid() && found.hour == 0 && found.minute == 0 && found.seconds() == day
            * SECONDS_PER_DAY);
    }
}

/// A clock that counts `seconds` from the epoch shows the minute `civil` and
/// the second `second` of it.
pub open spec fn is_reading_of(civil: CivilDateTime, second: int, seconds: int) -> bool {
    civil.is_valid() && 0 <= second < 60 && civil.seconds() + second == seconds
}

/// Every second of the four-digit years is shown by a clock: it is a second
/// of some minute of some day.
pub proof fn lemma_every_second_has_a_reading(seconds: int)
    requires
        FIRST_SECOND <= seconds <= LAST_SECOND,
    ensures
        exists|civil: CivilDateTime, second: int| #[trigger] is_reading_of(civil, second, seconds),
{
    let day = seconds / SECONDS_PER_DAY as int;
    let rest = seconds % SECONDS_PER_DAY as int;
    lemma_every_day_has_a_date(day);
    let midnight = choose|civil: CivilDateTime|
        civil.is_valid() && civil.hour == 0 && civil.minute == 0 && #[trigger] civil.seconds()
            == day * SECONDS_PER_DAY;
    let civil = CivilDateTime {
        hour: (rest / 3600) as u32,
        minute: ((rest % 3600) / 60) as u32,
        ..midnight
    };
    let second = rest % 60;
    assert(is_reading_of(civil, second, seconds));
}

/// Whether `year` has a 29th of February.
pub fn leap_year(year: i32) -> (r: bool)
    requires
        0 <= year,
    ensures
        r == is_leap_year(year as int),
{
    year % 4 == 0 && (year % 100 != 0 || year % 400 == 0)
}

/// Days from the first of January to the first of `month` in a year that is
/// not a leap year.
fn days_to_month(month: u32) -> (r: i64)
    requires
        1 <= month <= 12,
    ensures
        r == days_before_month_common(month as int),
{
    if month == 1 {
        0
    } else if month == 2 {
        31
    } else if month == 3 {
        59
    } else if month == 4 {
        90
    } else if month == 5 {
        120
    } else if month == 6 {
        151
    } else if month == 7 {
        181
    } else if month == 8 {
        212
    } else if month == 9 {
        243
    } else if month == 10 {
        273
    } else if month == 11 {
        304
    } else {
        334
    }
}

/// Number of days of `month` in `year`.
pub fn month_length(year: i32, month: u32) -> (r: u32)
    requires
        0 <= year,
        1 <= month <= 12,
    ensures
        r == days_in_month(year as int, month as int),
{
    if month == 2 {
        if leap_year(year) {
            29
        } else {
            28
        }
    } else if month == 4 || month == 6 || month == 9 || month == 11 {
        30
    } else {
        31
    }
}

} // verus!
