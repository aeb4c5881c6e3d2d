//! From the two typed dates of a new meetup to its start and end instants.

use crate::civil::{
    lemma_seconds_are_injective, lemma_seconds_in_range, CivilDateTime, SECONDS_PER_HOUR,
};
use crate::grammar::{parse_civil, parsed_civil};
use crate::text::text_of;
use crate::zone::{resolve, resolved, zone_local_resolution, ZonedInstant};
use vstd::prelude::*;

verus! {

/// Which of the two typed dates an error is about.
#[derive(Clone, Copy, Debug, PartialEq, Eq, Structural)]
pub enum DateField {
    Start,
    End,
}

/// What is wrong with the typed dates of a meetup.
#[derive(Clone, Copy, Debug, PartialEq, Eq, Structural)]
pub enum ParseIssue {
    /// The start does not follow the grammar `YYYY-MM-DD HH:MM`, or names a
    /// day or minute that does not exist.
    Start,
    /// The same of the end.
    End,
    /// Both can be read, but the end is not later than the start.
    EndPrecedesStart,
}

/// The issue of a text in the given field that cannot be read.
pub open spec fn unreadable(field: DateField) -> ParseIssue {
    match field {
        DateField::Start => ParseIssue::Start,
        DateField::End => ParseIssue::End,
    }
}

impl DateField {
    /// The issue of a text in this field that cannot be read.
    pub fn issue(self) -> (r: ParseIssue)
        ensures
            r == unreadable(self),
    {
        match self {
            DateField::Start => ParseIssue::Start,
            DateField::End => ParseIssue::End,
        }
    }
}

/// Why the typed dates of a meetup could not be turned into instants.
#[derive(Clone, Copy, Debug, PartialEq, Eq, Structural)]
pub enum NormalizeError {
    /// The dates as typed cannot be used.
    Parse(ParseIssue),
    /// The zone's clocks skipped the reading when they were set forward.
    Zone(DateField),
}

/// Length of a meetup whose end was not given, in seconds.
pub const DEFAULT_DURATION: i64 = SECONDS_PER_HOUR;

/// The text is a date of the grammar, and the zone's clocks did not skip its
/// reading: it stands for an instant.
pub open spec fn names_an_instant(text: Seq<char>) -> bool {
    parsed_civil(text) matches Some(civil) && !(zone_local_resolution(civil) is Gap)
}

/// The text is a date of the grammar, but the zone's clocks skipped its
/// reading when they were set forward.
pub open spec fn is_skipped(text: Seq<char>) -> bool {
    parsed_civil(text) matches Some(civil) && zone_local_resolution(civil) is Gap
}

/// The instant that one typed date stands for.
pub open spec fn instant_of(text: Seq<char>, field: DateField) -> Result<
    ZonedInstant,
    NormalizeError,
> {
    match parsed_civil(text) {
        None => Err(NormalizeError::Parse(unreadable(field))),
        Some(civil) => match resolved(civil) {
            None => Err(NormalizeError::Zone(field)),
            Some(instant) => Ok(instant),
        },
    }
}

/// The end of a meetup whose end was not given: one hour of elapsed time
/// after the start, as the zone sees that instant.
pub open spec fn default_end(start: ZonedInstant) -> ZonedInstant {
    ZonedInstant::at_spec(start.utc_seconds + DEFAULT_DURATION)
}

/// Start and end of a meetup from its typed dates.
///
/// The start is read first, so an error about it wins over one about the end.
/// No order between start and end is asked for.
pub open spec fn normalized(start: Seq<char>, end: Option<Seq<char>>) -> Result<
    (ZonedInstant, ZonedInstant),
    NormalizeError,
> {
    match instant_of(start, DateField::Start) {
        Err(e) => Err(e),
        Ok(first) => match end {
            None => Ok((first, default_end(first))),
            Some(text) => match instant_of(text, DateField::End) {
                Err(e) => Err(e),
                Ok(last) => Ok((first, last)),
            },
        },
    }
}

impl NormalizeError {
    /// The sentence shown to the organiser.
    pub open spec fn message_text(&self) -> Seq<char> {
        match *self {
            NormalizeError::Parse(ParseIssue::Start) => "Couldn't parse start time"@,
            NormalizeError::Parse(ParseIssue::End) => "Couldn't parse end time"@,
            NormalizeError::Parse(ParseIssue::EndPrecedesStart) => "End time precedes start time"@,
            NormalizeError::Zone(DateField::Start) => "Start time does not exist in the time zone"@,
            NormalizeError::Zone(DateField::End) => "End time does not exist in the time zone"@,
        }
    }

    /// The sentence shown to the organiser.
    pub fn message(&self) -> (r: &'static str)
        ensures
            r@ == self.message_text(),
    {
        match *self {
            NormalizeError::Parse(ParseIssue::Start) => "Couldn't parse start time",
            NormalizeError::Parse(ParseIssue::End) => "Couldn't parse end time",
            NormalizeError::Parse(ParseIssue::EndPrecedesStart) => "End time precedes start time",
            NormalizeError::Zone(DateField::Start) => "Start time does not exist in the time zone",
            NormalizeError::Zone(DateField::End) => "End time does not exist in the time zone",
        }
    }
}

/// Reads one typed date and resolves it in the zone.
///
/// On success the instant is in the zone and the zone's clocks show the typed
/// reading at it.
pub fn parse_date(text: &str, field: DateField) -> (r: Result<ZonedInstant, NormalizeError>)
    ensures
        r == instant_of(text@, field),
        r is Ok <==> names_an_instant(text@),
        names_an_instant(text@) <==> instant_of(text@, field) is Ok,
        parsed_civil(text@) is None <==> r == Err::<ZonedInstant, NormalizeError>(
            NormalizeError::Parse(unreadable(field)),
        ),
        is_skipped(text@) <==> r == Err::<ZonedInstant, NormalizeError>(
            NormalizeError::Zone(field),
        ),
        r matches Ok(instant) ==> {
            &&& parsed_civil(text@) matches Some(civil)
            &&& instant.shows(civil.seconds())
            &&& instant.is_valid()
            &&& instant.shows_four_digit_year()
        },
{
    match parse_civil(text) {
        None => Err(NormalizeError::Parse(field.issue())),
        Some(civil) => {
            proof {
                lemma_seconds_in_range(civil);
            }
            match resolve(&civil) {
                None => Err(NormalizeError::Zone(field)),
                Some(instant) => Ok(instant),
            }
        },
    }
}

/// Turns the typed start and the optional typed end of a meetup into
/// instants in the zone.
///
/// Without an end, the meetup ends one hour of elapsed time after it starts.
/// The start's wall-clock reading is the one that was typed, and so is the
/// end's where it was typed.  The same text for both gives the same instant
/// twice.
pub fn parse_start_and_end_date(start: String, end: Option<String>) -> (r: Result<
    (ZonedInstant, ZonedInstant),
    NormalizeError,
>)
    ensures
        r == normalized(start@, text_of(end)),
        r is Ok <==> names_an_instant(start@) && (end is Some ==> names_an_instant(end->0@)),
        names_an_instant(start@) <==> instant_of(start@, DateField::Start) is Ok,
        parsed_civil(start@) is None ==> r == Err::<(ZonedInstant, ZonedInstant), NormalizeError>(
            NormalizeError::Parse(ParseIssue::Start),
        ),
        is_skipped(start@) ==> r == Err::<(ZonedInstant, ZonedInstant), NormalizeError>(
            NormalizeError::Zone(DateField::Start),
        ),
        names_an_instant(start@) && end is Some && parsed_civil(end->0@) is None ==> r == Err::<
            (ZonedInstant, ZonedInstant),
            NormalizeError,
        >(NormalizeError::Parse(ParseIssue::End)),
        names_an_instant(start@) && end is Some && is_skipped(end->0@) ==> r == Err::<
            (ZonedInstant, ZonedInstant),
            NormalizeError,
        >(NormalizeError::Zone(DateField::End)),
        r matches Ok(pair) ==> {
            &&& pair.0.is_valid() && pair.1.is_valid()
            &&& pair.0.in_zone() && pair.1.in_zone()
            &&& pair.0.shows_four_digit_year()
            &&& end is Some ==> pair.1.shows_four_digit_year()
            &&& parsed_civil(start@) matches Some(civil) && pair.0.local_seconds()
                == civil.seconds()
            &&& end is Some ==> (parsed_civil(end->0@) matches Some(civil)
                && pair.1.local_seconds() == civil.seconds())
            &&& end is None ==> pair.1.utc_seconds - pair.0.utc_seconds == DEFAULT_DURATION
            &&& (end is Some && end->0@ == start@) ==> pair.0 == pair.1
        },
{
    let first = match parse_date(start.as_str(), DateField::Start) {
        Err(e) => { return Err(e); },
        Ok(instant) => instant,
    };
    match end {
        None => {
            let last = ZonedInstant::at(first.utc_seconds + DEFAULT_DURATION);
            Ok((first, last))
        },
        Some(text) => match parse_date(text.as_str(), DateField::End) {
            Err(e) => Err(e),
            Ok(last) => Ok((first, last)),
        },
    }
}

/// A meetup whose end was not given lasts exactly one hour.
pub proof fn lemma_default_end_is_one_hour_later(start: Seq<char>)
    ensures
        normalized(start, None) matches Ok(pair) ==> pair.1.utc_seconds - pair.0.utc_seconds
            == DEFAULT_DURATION,
{
    if let Some(civil) = parsed_civil(start) {
        lemma_seconds_in_range(civil);
    }
}

/// The start's wall-clock reading in the zone is the one that was typed, and
/// so is the end's where it was typed: reading an instant of the result back
/// in the zone gives the civil value it came from.
pub proof fn lemma_reading_is_kept(start: Seq<char>, end: Option<Seq<char>>)
    ensures
        normalized(start, end) matches Ok(pair) ==> {
            &&& parsed_civil(start) matches Some(civil) && pair.0.shows(civil.seconds())
            &&& end is Some ==> (parsed_civil(end->0) matches Some(civil) && pair.1.shows(
                civil.seconds(),
            ))
        },
{
}

/// Round trip of the start: put the start's instant, as UTC, back into the
/// zone and read the zone's clock at it; the reading is the civil value that
/// was typed.
pub proof fn lemma_start_reads_back_as_typed(
    start: Seq<char>,
    end: Option<Seq<char>>,
    reading: CivilDateTime,
)
    requires
        normalized(start, end) matches Ok(pair) && reading.seconds() == ZonedInstant::at_spec(
            pair.0.utc_seconds as int,
        ).local_seconds(),
        reading.is_valid(),
    ensures
        parsed_civil(start) == Some(reading),
        normalized(start, end) matches Ok(pair) && ZonedInstant::at_spec(pair.0.utc_seconds as int)
            == pair.0,
{
    let typed = parsed_civil(start).unwrap();
    lemma_seconds_are_injective(typed, 0, reading, 0);
}

/// A meetup whose end is typed as its start ends at the instant it starts.
pub proof fn lemma_same_text_same_instant(text: Seq<char>)
    ensures
        normalized(text, Some(text)) matches Ok(pair) ==> pair.0 == pair.1,
        normalized(text, Some(text)) is Ok <==> normalized(text, None) is Ok,
{
}

} // verus!
