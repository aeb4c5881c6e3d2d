//! Instants in the community's time zone.
//!
//! The zone is fixed when the crate is built: it is the zone imported below
//! under the name `TIMEZONE`.  Its rules live in `chrono-tz`; this module holds
//! what the rest of the crate reads of an instant, and the few calls that ask
//! `chrono` for an answer.

use crate::civil::{lemma_seconds_are_injective, CivilDateTime, FIRST_SECOND, LAST_SECOND};
use crate::grammar::{four_digits, is_digit, lemma_two_digits_fix_the_text, two_digits};
use chrono::{FixedOffset, LocalResult, NaiveDate, Offset, TimeZone};
use chrono_tz::Europe::Berlin as TIMEZONE;
use vstd::prelude::*;

verus! {

/// Slack around the four-digit years: two days, more than any offset from UTC
/// and an hour together.
pub const INSTANT_MARGIN: i64 = 172_800;

/// Earliest instant that the crate handles, in seconds from the Unix epoch.
pub const MIN_INSTANT: i64 = FIRST_SECOND - INSTANT_MARGIN;

/// Latest instant that the crate handles, in seconds from the Unix epoch.
pub const MAX_INSTANT: i64 = LAST_SECOND + INSTANT_MARGIN;

/// Bound, exclusive, on the size of an offset from UTC: one day.
pub const OFFSET_BOUND: i32 = 86_400;

/// `seconds`, counted from the Unix epoch, is an instant that the crate handles.
pub open spec fn is_instant(seconds: int) -> bool {
    MIN_INSTANT <= seconds <= MAX_INSTANT
}

/// An instant, and how far the zone's clocks are ahead of UTC at it.
#[derive(Clone, Copy, Debug, PartialEq, Eq, Structural)]
pub struct ZonedInstant {
    /// Seconds from 1970-01-01 00:00:00 UTC.
    pub utc_seconds: i64,
    /// Seconds by which local time is ahead of UTC.
    pub offset_seconds: i32,
}

/// What the zone's rules make of a civil value.
#[derive(Clone, Copy, Debug, PartialEq, Eq, Structural)]
pub enum LocalResolution {
    /// The clocks skipped this reading.
    Gap,
    /// The clocks showed this reading once.
    Single(ZonedInstant),
    /// The clocks showed this reading twice; the earlier instant comes first.
    Ambiguous(ZonedInstant, ZonedInstant),
}

/// The answer of `chrono-tz` for a civil value in the zone: what
/// `NaiveDateTime::and_local_timezone` returns for it.
pub uninterp spec fn zone_local_resolution(civil: CivilDateTime) -> LocalResolution;

/// The offset of the zone from UTC, in seconds, at an instant: what
/// `TimeZone::timestamp_opt` attaches to it.
pub uninterp spec fn zone_offset_at(utc_seconds: int) -> int;

/// Number of characters of an instant written with date, time and offset.
pub const RFC3339_LEN: usize = 25;

/// `s` has the shape `dddd-dd-ddTdd:dd:dd+dd:dd`, where each `d` is a digit
/// and the sign is `+` or `-`.
pub open spec fn has_rfc3339_shape(s: Seq<char>) -> bool {
    &&& s.len() == RFC3339_LEN
    &&& is_digit(s[0]) && is_digit(s[1]) && is_digit(s[2]) && is_digit(s[3])
    &&& s[4] == '-'
    &&& is_digit(s[5]) && is_digit(s[6])
    &&& s[7] == '-'
    &&& is_digit(s[8]) && is_digit(s[9])
    &&& s[10] == 'T'
    &&& is_digit(s[11]) && is_digit(s[12])
    &&& s[13] == ':'
    &&& is_digit(s[14]) && is_digit(s[15])
    &&& s[16] == ':'
    &&& is_digit(s[17]) && is_digit(s[18])
    &&& (s[19] == '+' || s[19] == '-')
    &&& is_digit(s[20]) && is_digit(s[21])
    &&& s[22] == ':'
    &&& is_digit(s[23]) && is_digit(s[24])
}

/// The date, hour and minute that a text of that shape writes down.
pub open spec fn rfc3339_civil(s: Seq<char>) -> CivilDateTime {
    CivilDateTime {
        year: four_digits(s, 0) as i32,
        month: two_digits(s, 5) as u32,
        day: two_digits(s, 8) as u32,
        hour: two_digits(s, 11) as u32,
        minute: two_digits(s, 14) as u32,
    }
}

/// The size of an offset in minutes, rounded to the nearest minute.
pub open spec fn offset_minutes(offset_seconds: int) -> int {
    ((if offset_seconds < 0 {
        -offset_seconds
    } else {
        offset_seconds
    }) + 30) / 60
}

/// `s` writes the instant `utc_seconds` as the clocks show it that are
/// `offset_seconds` ahead of UTC: the local date and time, then the sign of
/// the offset and its size in hours and minutes.
pub open spec fn is_rfc3339_of(s: Seq<char>, utc_seconds: int, offset_seconds: int) -> bool {
    &&& has_rfc3339_shape(s)
    &&& rfc3339_civil(s).is_valid()
    &&& two_digits(s, 17) < 60
    &&& rfc3339_civil(s).seconds() + two_digits(s, 17) == utc_seconds + offset_seconds
    &&& s[19] == (if offset_seconds < 0 {
        '-'
    } else {
        '+'
    })
    &&& two_digits(s, 20) == offset_minutes(offset_seconds) / 60
    &&& two_digits(s, 23) == offset_minutes(offset_seconds) % 60
}

/// An instant with an offset is written in one way only.
pub proof fn lemma_rfc3339_is_unique(
    a: Seq<char>,
    b: Seq<char>,
    utc_seconds: int,
    offset_seconds: int,
)
    requires
        is_rfc3339_of(a, utc_seconds, offset_seconds),
        is_rfc3339_of(b, utc_seconds, offset_seconds),
    ensures
        a == b,
{
    lemma_seconds_are_injective(
        rfc3339_civil(a),
        two_digits(a, 17),
        rfc3339_civil(b),
        two_digits(b, 17),
    );
    assert(two_digits(a, 0) == two_digits(b, 0) && two_digits(a, 2) == two_digits(b, 2));
    lemma_two_digits_fix_the_text(a, b, 0);
    lemma_two_digits_fix_the_text(a, b, 2);
    lemma_two_digits_fix_the_text(a, b, 5);
    lemma_two_digits_fix_the_text(a, b, 8);
    lemma_two_digits_fix_the_text(a, b, 11);
    lemma_two_digits_fix_the_text(a, b, 14);
    lemma_two_digits_fix_the_text(a, b, 17);
    lemma_two_digits_fix_the_text(a, b, 20);
    lemma_two_digits_fix_the_text(a, b, 23);
    assert(a =~= b);
}

impl ZonedInstant {
    /// What the zone's clocks show at this instant, in seconds from
    /// 1970-01-01 00:00:00 on those clocks.
    pub open spec fn local_seconds(&self) -> int {
        self.utc_seconds + self.offset_seconds
    }

    /// The instant is one that the crate handles and the offset is less than
    /// a day.
    pub open spec fn is_valid(&self) -> bool {
        &&& is_instant(self.utc_seconds as int)
        &&& -OFFSET_BOUND < self.offset_seconds < OFFSET_BOUND
    }

    /// The offset is the one that the zone has at this instant.
    pub open spec fn in_zone(&self) -> bool {
        self.offset_seconds == zone_offset_at(self.utc_seconds as int)
    }

    /// The instant is in the zone, and the zone's clocks show `reading` at it.
    pub open spec fn shows(&self, reading: int) -> bool {
        &&& -OFFSET_BOUND < self.offset_seconds < OFFSET_BOUND
        &&& self.local_seconds() == reading
        &&& self.in_zone()
    }

    /// The instant `utc_seconds` as the zone sees it.
    pub open spec fn at_spec(utc_seconds: int) -> ZonedInstant {
        ZonedInstant {
            utc_seconds: utc_seconds as i64,
            offset_seconds: zone_offset_at(utc_seconds) as i32,
        }
    }

    /// Puts an instant into the zone.
    pub fn at(utc_seconds: i64) -> (r: ZonedInstant)
        requires
            is_instant(utc_seconds as int),
        ensures
            r == Self::at_spec(utc_seconds as int),
            r.is_valid(),
            r.in_zone(),
    {
        ZonedInstant { utc_seconds, offset_seconds: offset_in_zone(utc_seconds) }
    }

    /// Whether the value is valid, as `to_rfc3339` asks.
    pub fn check_valid(&self) -> (r: bool)
        ensures
            r == self.is_valid(),
    {
        MIN_INSTANT <= self.utc_seconds && self.utc_seconds <= MAX_INSTANT && -OFFSET_BOUND
            < self.offset_seconds && self.offset_seconds < OFFSET_BOUND
    }

    /// What the zone's clocks show at this instant lies in the years 0000 to
    /// 9999.
    pub open spec fn shows_four_digit_year(&self) -> bool {
        FIRST_SECOND <= self.local_seconds() <= LAST_SECOND
    }

    /// The instant as date, time and offset: `YYYY-MM-DDTHH:MM:SS+HH:MM`,
    /// where the clocks show a year from 0000 to 9999.  (Beyond these years
    /// the year is written with a sign and more digits.)
    pub fn to_rfc3339(&self) -> (r: String)
        requires
            self.is_valid(),
        ensures
            self.shows_four_digit_year() ==> is_rfc3339_of(
                r@,
                self.utc_seconds as int,
                self.offset_seconds as int,
            ),
    {
        rfc3339(self.utc_seconds, self.offset_seconds)
    }
}

impl LocalResolution {
    /// Every instant of the answer is in the zone and shows `reading` there,
    /// and of two the first is the earlier.
    pub open spec fn shows(&self, reading: int) -> bool {
        match *self {
            LocalResolution::Gap => true,
            LocalResolution::Single(only) => only.shows(reading),
            LocalResolution::Ambiguous(first, second) => {
                &&& first.shows(reading)
                &&& second.shows(reading)
                &&& first.utc_seconds < second.utc_seconds
            },
        }
    }

    /// The earliest instant of the answer, if it has one.
    pub open spec fn earliest_spec(&self) -> Option<ZonedInstant> {
        match *self {
            LocalResolution::Gap => None,
            LocalResolution::Single(only) => Some(only),
            LocalResolution::Ambiguous(first, _) => Some(first),
        }
    }

    /// The earliest instant of the answer, if it has one.
    pub fn earliest(&self) -> (r: Option<ZonedInstant>)
        ensures
            r == self.earliest_spec(),
    {
        match *self {
            LocalResolution::Gap => None,
            LocalResolution::Single(only) => Some(only),
            LocalResolution::Ambiguous(first, _) => Some(first),
        }
    }
}

/// The instant of a civil value in the zone: the earliest instant at which
/// the zone's clocks show it.
///
/// A reading that the clocks showed twice, when they were set back, stands
/// for the earlier of the two instants: the one before the change, with the
/// larger offset.  A reading that the clocks skipped has no instant.
pub open spec fn resolved(civil: CivilDateTime) -> Option<ZonedInstant> {
    match zone_local_resolution(civil).earliest_spec() {
        Some(instant) if instant.shows(civil.seconds()) => Some(instant),
        _ => None,
    }
}

/// Resolves a civil value in the zone; see [`resolved`].
///
/// There is an instant exactly when the clocks did not skip the reading.
/// Where they showed it twice, the instant is the first of the two, and it
/// is earlier than the other.
pub fn resolve(civil: &CivilDateTime) -> (r: Option<ZonedInstant>)
    requires
        civil.is_valid(),
    ensures
        r == resolved(*civil),
        r is None <==> zone_local_resolution(*civil) is Gap,
        r matches Some(instant) ==> instant.shows(civil.seconds()),
        zone_local_resolution(*civil) matches LocalResolution::Ambiguous(first, second) ==> r
            == Some(first) && first.utc_seconds < second.utc_seconds,
{
    resolve_in_zone(civil).earliest()
}

/// Calls `NaiveDate::from_ymd_opt`, `NaiveDate::and_hms_opt` and
/// `NaiveDateTime::and_local_timezone` of `chrono`, with the zone of
/// `chrono-tz`, and copies the instant and the offset out of each result.
///
/// Trusted: the answer depends on the civil value alone; each instant in it
/// is the civil value less its offset, the offset is smaller than a day and is
/// the one that the zone has at that instant; and of two instants the first
/// is the earlier.  The fields of a valid civil value are in the range of
/// both constructors, so neither `unwrap` fails.
#[verifier::external_body]
fn resolve_in_zone(civil: &CivilDateTime) -> (r: LocalResolution)
    requires
        civil.is_valid(),
    ensures
        r == zone_local_resolution(*civil),
        r.shows(civil.seconds()),
{
    let date = NaiveDate::from_ymd_opt(civil.year, civil.month, civil.day).unwrap();
    let zoned = |t: chrono::DateTime<chrono_tz::Tz>| ZonedInstant {
        utc_seconds: t.timestamp(),
        offset_seconds: t.offset().fix().local_minus_utc(),
    };
    match date.and_hms_opt(civil.hour, civil.minute, 0).unwrap().and_local_timezone(TIMEZONE) {
        LocalResult::None => LocalResolution::Gap,
        LocalResult::Single(t) => LocalResolution::Single(zoned(t)),
        LocalResult::Ambiguous(a, b) => LocalResolution::Ambiguous(zoned(a), zoned(b)),
    }
}

/// Calls `TimeZone::timestamp_opt` of `chrono` on the zone of `chrono-tz` and
/// reads the offset of the result.
///
/// Trusted: the offset depends on the instant alone and is smaller than a
/// day.  An instant that the crate handles is in the range of `chrono`, so
/// the `unwrap` does not fail.
#[verifier::external_body]
fn offset_in_zone(utc_seconds: i64) -> (r: i32)
    requires
        is_instant(utc_seconds as int),
    ensures
        r == zone_offset_at(utc_seconds as int),
        -OFFSET_BOUND < r < OFFSET_BOUND,
{
    TIMEZONE.timestamp_opt(utc_seconds, 0).unwrap().offset().fix().local_minus_utc()
}

/// Calls `FixedOffset::east_opt`, `TimeZone::timestamp_opt` and
/// `DateTime::to_rfc3339` of `chrono`.
///
/// Trusted: where the local time lies in the years 0000 to 9999, the text
/// is that time as `YYYY-MM-DDTHH:MM:SS`, then the sign of the offset and its
/// size, rounded to the minute, as `HH:MM`.  With an offset smaller than a
/// day and an instant that the crate handles, neither `unwrap` fails.
#[verifier::external_body]
fn rfc3339(utc_seconds: i64, offset_seconds: i32) -> (r: String)
    requires
        is_instant(utc_seconds as int),
        -OFFSET_BOUND < offset_seconds < OFFSET_BOUND,
    ensures
        FIRST_SECOND <= utc_seconds + offset_seconds <= LAST_SECOND ==> is_rfc3339_of(
            r@,
            utc_seconds as int,
            offset_seconds as int,
        ),
{
    let offset = FixedOffset::east_opt(offset_seconds).unwrap();
    offset.timestamp_opt(utc_seconds, 0).unwrap().to_rfc3339()
}

} // verus!
