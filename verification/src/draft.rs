//! The two instants of a meetup that is about to be created.

use crate::civil::lemma_seconds_in_range;
use crate::grammar::parsed_civil;
use crate::normalize::{normalized, parse_start_and_end_date, NormalizeError, ParseIssue};
use crate::text::text_of;
use crate::zone::ZonedInstant;
use vstd::prelude::*;

verus! {

/// Start and end of a meetup.  A draft made by this module ends after it
/// starts.
#[derive(Clone, Copy, Debug, PartialEq, Eq, Structural)]
pub struct EventDraft {
    pub start: ZonedInstant,
    pub end: ZonedInstant,
}

impl EventDraft {
    /// The end is later than the start.
    pub open spec fn is_valid(&self) -> bool {
        self.start.utc_seconds < self.end.utc_seconds
    }

    /// The draft with this start and end, or the issue that the end is not
    /// later than the start.
    pub open spec fn checked(start: ZonedInstant, end: ZonedInstant) -> Result<
        EventDraft,
        NormalizeError,
    > {
        if start.utc_seconds < end.utc_seconds {
            Ok(EventDraft { start, end })
        } else {
            Err(NormalizeError::Parse(ParseIssue::EndPrecedesStart))
        }
    }

    /// Makes a draft of two instants, if the second is later than the first.
    pub fn new(start: ZonedInstant, end: ZonedInstant) -> (r: Result<EventDraft, NormalizeError>)
        ensures
            r == Self::checked(start, end),
            r matches Ok(draft) ==> draft.is_valid(),
    {
        if start.utc_seconds < end.utc_seconds {
            Ok(EventDraft { start, end })
        } else {
            Err(NormalizeError::Parse(ParseIssue::EndPrecedesStart))
        }
    }
}

/// The draft of a meetup from its typed dates: the instants that the dates
/// stand for, if the end is later than the start.
pub open spec fn drafted(start: Seq<char>, end: Option<Seq<char>>) -> Result<
    EventDraft,
    NormalizeError,
> {
    match normalized(start, end) {
        Err(e) => Err(e),
        Ok(pair) => EventDraft::checked(pair.0, pair.1),
    }
}

/// Reads the typed dates of a meetup and checks their order.
pub fn draft(start: String, end: Option<String>) -> (r: Result<EventDraft, NormalizeError>)
    ensures
        r == drafted(start@, text_of(end)),
        r matches Ok(d) ==> d.is_valid() && d.start.is_valid() && d.end.is_valid(),
{
    match parse_start_and_end_date(start, end) {
        Err(e) => Err(e),
        Ok(pair) => EventDraft::new(pair.0, pair.1),
    }
}

/// Without a typed end the order is never at fault: the draft exists
/// whenever the start can be read and resolved.
pub proof fn lemma_default_end_makes_a_draft(start: Seq<char>)
    ensures
        drafted(start, None) is Ok <==> normalized(start, None) is Ok,
{
    if let Some(civil) = parsed_civil(start) {
        lemma_seconds_in_range(civil);
    }
}

} // verus!
