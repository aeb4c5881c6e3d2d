//! From the scheduled events of a community to one calendar file.

use crate::ical::{
    calendar_add_event, calendar_events, calendar_is_plain, calendar_new, calendar_properties,
    calendar_write, content_line, event_is_plain, event_new, event_properties, event_push,
    lemma_events_are_blocks, lemma_short_property_is_not_cut, lemma_written_concat,
    lemma_written_push, written_calendar, written_event, written_events, written_properties,
    written_property, PropertyModel, KEY_DTSTAMP, KEY_PRODID, KEY_UID, KEY_VERSION, LINE_LIMIT,
};
use crate::normalize::DEFAULT_DURATION;
use crate::stamp::{
    can_stamp, is_stamp_of, is_stampable, lemma_stamp_exists, lemma_stamps_sort_like_instants,
    sorts_no_later, stamp_of, utc_stamp, STAMP_LEN,
};
use crate::text::{clone_text, decimal, decimal_text, text_of};
use vstd::prelude::*;
use vstd::utf8::{encode_utf8, is_ascii_chars, is_ascii_chars_encode_utf8};

verus! {

/// Name under which the calendar file is handed out.
pub const ATTACHMENT_NAME: &'static str = "calendar.ics";

/// Version of the calendar format that is written.
pub const CALENDAR_VERSION: &'static str = "2.0";

/// Product identifier that is written.
pub const PRODUCT_ID: &'static str = "ics-rs";

/// Name of the property that holds the name of an event.
pub const KEY_SUMMARY: &'static str = "SUMMARY";

/// Name of the property that holds the description of an event.
pub const KEY_DESCRIPTION: &'static str = "DESCRIPTION";

/// Name of the property that holds the place of an event.
pub const KEY_LOCATION: &'static str = "LOCATION";

/// Name of the property that holds the start of an event.
pub const KEY_DTSTART: &'static str = "DTSTART";

/// Name of the property that holds the end of an event.
pub const KEY_DTEND: &'static str = "DTEND";

/// A scheduled event as the chat platform reports it.  Instants are seconds
/// from the Unix epoch in UTC.
#[derive(Clone, Debug, PartialEq, Eq)]
pub struct PlatformEvent {
    pub id: u64,
    pub name: String,
    pub description: Option<String>,
    pub location: Option<String>,
    pub start_time: i64,
    pub end_time: Option<i64>,
}

/// What a [`PlatformEvent`] holds.
pub struct PlatformEventView {
    pub id: nat,
    pub name: Seq<char>,
    pub description: Option<Seq<char>>,
    pub location: Option<Seq<char>>,
    pub start_time: int,
    pub end_time: Option<int>,
}

impl View for PlatformEvent {
    type V = PlatformEventView;

    open spec fn view(&self) -> PlatformEventView {
        PlatformEventView {
            id: self.id as nat,
            name: self.name@,
            description: text_of(self.description),
            location: text_of(self.location),
            start_time: self.start_time as int,
            end_time: match self.end_time {
                Some(end) => Some(end as int),
                None => None,
            },
        }
    }
}

impl PlatformEventView {
    /// When the event ends: as reported, or one hour after its start.
    pub open spec fn end(&self) -> int {
        match self.end_time {
            Some(end) => end,
            None => self.start_time + DEFAULT_DURATION,
        }
    }

    /// A stamp can name the start and the end of the event.
    pub open spec fn well_formed(&self) -> bool {
        is_stampable(self.start_time) && is_stampable(self.end())
    }
}

/// One entry of a calendar, made from one event.
#[derive(Clone, Debug, PartialEq, Eq)]
pub struct CalendarEntry {
    pub uid: String,
    pub dtstamp: i64,
    pub summary: String,
    pub description: Option<String>,
    pub location: Option<String>,
    pub dtstart: i64,
    pub dtend: i64,
}

/// What a [`CalendarEntry`] holds.
pub struct CalendarEntryView {
    pub uid: Seq<char>,
    pub dtstamp: int,
    pub summary: Seq<char>,
    pub description: Option<Seq<char>>,
    pub location: Option<Seq<char>>,
    pub dtstart: int,
    pub dtend: int,
}

impl View for CalendarEntry {
    type V = CalendarEntryView;

    open spec fn view(&self) -> CalendarEntryView {
        CalendarEntryView {
            uid: self.uid@,
            dtstamp: self.dtstamp as int,
            summary: self.summary@,
            description: text_of(self.description),
            location: text_of(self.location),
            dtstart: self.dtstart as int,
            dtend: self.dtend as int,
        }
    }
}

impl CalendarEntryView {
    /// A stamp can name each of the three instants of the entry.
    pub open spec fn well_formed(&self) -> bool {
        is_stampable(self.dtstamp) && is_stampable(self.dtstart) && is_stampable(self.dtend)
    }
}

/// The calendar entry of an event in a calendar written at `now`.
pub open spec fn entry_for(event: PlatformEventView, now: int) -> CalendarEntryView {
    CalendarEntryView {
        uid: decimal_text(event.id),
        dtstamp: now,
        summary: event.name,
        description: event.description,
        location: event.location,
        dtstart: event.start_time,
        dtend: event.end(),
    }
}

/// The entries of a calendar written at `now`: one for each event, in the
/// order of the events.
pub open spec fn entries_for(events: Seq<PlatformEvent>, now: int) -> Seq<CalendarEntryView> {
    Seq::new(events.len(), |i: int| entry_for(events[i]@, now))
}

impl PlatformEvent {
    /// Whether a stamp can name the start and the end of the event.
    pub fn is_well_formed(&self) -> (r: bool)
        ensures
            r == self@.well_formed(),
    {
        can_stamp(self.start_time) && match self.end_time {
            Some(end) => can_stamp(end),
            // the start is at most `LAST_SECOND` here, so the sum is in range
            None => can_stamp(self.start_time + DEFAULT_DURATION),
        }
    }

    /// The calendar entry of this event in a calendar written at `now`.
    pub fn calendar_entry(&self, now: i64) -> (entry: CalendarEntry)
        requires
            self@.well_formed(),
        ensures
            entry@ == entry_for(self@, now as int),
    {
        CalendarEntry {
            uid: decimal(self.id),
            dtstamp: now,
            summary: self.name.clone(),
            description: clone_text(&self.description),
            location: clone_text(&self.location),
            dtstart: self.start_time,
            dtend: match self.end_time {
                Some(end) => end,
                None => self.start_time + DEFAULT_DURATION,
            },
        }
    }
}

/// Maps each event to its calendar entry.
pub fn calendar_entries(events: &Vec<PlatformEvent>, now: i64) -> (entries: Vec<CalendarEntry>)
    requires
        forall|i: int| 0 <= i < events.len() ==> (#[trigger] events[i])@.well_formed(),
    ensures
        entries.len() == events.len(),
        entries@.map_values(|e: CalendarEntry| e@) == entries_for(events@, now as int),
{
    let mut entries: Vec<CalendarEntry> = Vec::new();
    let mut i: usize = 0;
    while i < events.len()
        invariant
            i <= events.len(),
            entries.len() == i,
            forall|j: int| 0 <= j < events.len() ==> (#[trigger] events[j])@.well_formed(),
            forall|j: int| 0 <= j < i ==> (#[trigger] entries[j])@ == entry_for(events[j]@, now as int),
        decreases events.len() - i,
    {
        entries.push(events[i].calendar_entry(now));
        i += 1;
    }
    assert(entries@.map_values(|e: CalendarEntry| e@) =~= entries_for(events@, now as int));
    entries
}

/// Zero or one property: one with this name where there is a value.
pub open spec fn optional_property(key: Seq<char>, value: Option<Seq<char>>) -> Seq<
    PropertyModel,
> {
    match value {
        Some(text) => seq![(key, text)],
        None => Seq::empty(),
    }
}

/// The properties of the event that stands for an entry, in the order in
/// which they are written.  Description and location are there exactly when
/// the entry has them; the three instants are written as stamps.
pub open spec fn entry_properties(entry: CalendarEntryView) -> Seq<PropertyModel> {
    seq![
        (KEY_UID@, entry.uid),
        (KEY_DTSTAMP@, stamp_of(entry.dtstamp)),
        (KEY_SUMMARY@, entry.summary),
    ] + optional_property(KEY_DESCRIPTION@, entry.description) + optional_property(
        KEY_LOCATION@,
        entry.location,
    ) + seq![
        (KEY_DTSTART@, stamp_of(entry.dtstart)),
        (KEY_DTEND@, stamp_of(entry.dtend)),
    ]
}

/// The calendar's own properties.
pub open spec fn header_properties() -> Seq<PropertyModel> {
    seq![(KEY_VERSION@, CALENDAR_VERSION@), (KEY_PRODID@, PRODUCT_ID@)]
}

/// The events of the calendar: one for each entry, in the order of the
/// entries, each as its properties.
pub open spec fn document(entries: Seq<CalendarEntryView>) -> Seq<Seq<PropertyModel>> {
    Seq::new(entries.len(), |i: int| entry_properties(entries[i]))
}

/// The calendar file with these entries, as text.
pub open spec fn calendar_text(entries: Seq<CalendarEntryView>) -> Seq<char> {
    written_calendar(header_properties(), document(entries))
}

/// The calendar file with these entries: its text in UTF-8.
pub open spec fn calendar_bytes(entries: Seq<CalendarEntryView>) -> Seq<u8> {
    encode_utf8(calendar_text(entries))
}

/// Why no calendar file was made.
#[derive(Clone, Copy, Debug, PartialEq, Eq, Structural)]
pub enum ExportError {
    /// The clock shows a time outside the years 0000 to 9999.
    Clock,
    /// The bytes could not be written.
    Io,
}

impl ExportError {
    /// The sentence shown to whoever asked for the file.
    pub fn message(&self) -> (r: &'static str)
        ensures
            r@ == (match *self {
                ExportError::Clock => "The clock does not show a year from 0000 to 9999"@,
                ExportError::Io => "Couldn't write the calendar"@,
            }),
    {
        match *self {
            ExportError::Clock => "The clock does not show a year from 0000 to 9999",
            ExportError::Io => "Couldn't write the calendar",
        }
    }
}

/// Builds the event of `ics` that stands for an entry.
fn entry_event(entry: &CalendarEntry) -> (event: ics::Event<'static>)
    requires
        entry@.well_formed(),
    ensures
        event_properties(event) == entry_properties(entry@),
        event_is_plain(event),
{
    let mut event = event_new(entry.uid.clone(), utc_stamp(entry.dtstamp));
    event_push(&mut event, KEY_SUMMARY, entry.summary.clone());
    if let Some(description) = &entry.description {
        event_push(&mut event, KEY_DESCRIPTION, description.clone());
    }
    if let Some(location) = &entry.location {
        event_push(&mut event, KEY_LOCATION, location.clone());
    }
    event_push(&mut event, KEY_DTSTART, utc_stamp(entry.dtstart));
    event_push(&mut event, KEY_DTEND, utc_stamp(entry.dtend));
    assert(event_properties(event) =~= entry_properties(entry@));
    event
}

/// What becomes of the outcome of writing: the bytes, or the error of the
/// byte sink as [`ExportError::Io`].
pub fn written(outcome: Result<Vec<u8>, std::io::Error>) -> (r: Result<Vec<u8>, ExportError>)
    ensures
        match outcome {
            Ok(bytes) => r == Ok::<Vec<u8>, ExportError>(bytes),
            Err(_) => r == Err::<Vec<u8>, ExportError>(ExportError::Io),
        },
{
    match outcome {
        Ok(bytes) => Ok(bytes),
        Err(_) => Err(ExportError::Io),
    }
}

/// Writes the calendar file with these entries.
///
/// The file has the version, the product identifier and one event for each
/// entry, in the order of the entries; nothing is sorted or left out.  For
/// entries whose instants a stamp can name the file is always made.
pub fn encode_entries(entries: &Vec<CalendarEntry>) -> (r: Result<Vec<u8>, ExportError>)
    requires
        forall|i: int| 0 <= i < entries.len() ==> (#[trigger] entries[i])@.well_formed(),
    ensures
        r is Ok,
        r matches Ok(bytes) ==> bytes@ == calendar_bytes(
            entries@.map_values(|e: CalendarEntry| e@),
        ),
{
    let ghost views = entries@.map_values(|e: CalendarEntry| e@);
    let mut calendar = calendar_new(CALENDAR_VERSION, PRODUCT_ID);
    let mut i: usize = 0;
    while i < entries.len()
        invariant
            i <= entries.len(),
            views == entries@.map_values(|e: CalendarEntry| e@),
            forall|j: int| 0 <= j < entries.len() ==> (#[trigger] entries[j])@.well_formed(),
            calendar_is_plain(calendar),
            calendar_properties(calendar) == header_properties(),
            calendar_events(calendar) == document(views.take(i as int)),
        decreases entries.len() - i,
    {
        let event = entry_event(&entries[i]);
        calendar_add_event(&mut calendar, event);
        assert(document(views.take(i + 1)) =~= document(views.take(i as int)).push(
            entry_properties(views[i as int]),
        ));
        i += 1;
    }
    assert(views.take(i as int) =~= views);
    written(calendar_write(&calendar))
}

/// Writes the calendar file of these events as of the instant `now`.
///
/// See [`entries_for`] for the entry of each event and [`encode_entries`]
/// for the file.  The file is made exactly when a stamp can name `now`; an
/// instant outside the years 0000 to 9999 gives [`ExportError::Clock`].
pub fn encode_at(events: &Vec<PlatformEvent>, now: i64) -> (r: Result<Vec<u8>, ExportError>)
    requires
        forall|i: int| 0 <= i < events.len() ==> (#[trigger] events[i])@.well_formed(),
    ensures
        r is Ok <==> is_stampable(now as int),
        r matches Ok(bytes) ==> bytes@ == calendar_bytes(entries_for(events@, now as int)),
        r matches Err(e) ==> e == ExportError::Clock,
{
    if !can_stamp(now) {
        return Err(ExportError::Clock);
    }
    let entries = calendar_entries(events, now);
    assert forall|i: int| 0 <= i < entries.len() implies (#[trigger] entries[i])@.well_formed() by {
        assert(entries@.map_values(|e: CalendarEntry| e@)[i] == entry_for(events[i]@, now as int));
    }
    encode_entries(&entries)
}

/// Writes the calendar file of these events as of now.
///
/// The clock is read once, so every entry carries the same time of writing.
/// The result is that of [`encode_at`] for what the clock shows: the file as
/// of some instant that a stamp can name, or [`ExportError::Clock`] where the
/// clock shows none.
pub fn encode(events: &Vec<PlatformEvent>) -> (r: Result<Vec<u8>, ExportError>)
    requires
        forall|i: int| 0 <= i < events.len() ==> (#[trigger] events[i])@.well_formed(),
    ensures
        r matches Ok(bytes) ==> exists|now: int|
            is_stampable(now) && bytes@ == #[trigger] calendar_bytes(entries_for(events@, now)),
        r matches Err(e) ==> e == ExportError::Clock,
{
    encode_at(events, unix_now())
}

/// Calls `Utc::now` and `DateTime::timestamp` of `chrono`: the seconds from
/// the Unix epoch to now, by the system clock.  Nothing is claimed of them.
#[verifier::external_body]
fn unix_now() -> i64 {
    chrono::Utc::now().timestamp()
}

/// The line of a property whose value is the stamp of an instant.
pub open spec fn stamp_line(key: Seq<char>, seconds: int) -> Seq<char> {
    key + seq![':'] + stamp_of(seconds) + "\r\n"@
}

/// The line or lines of a property that an entry may lack: nothing where
/// it has no value.
pub open spec fn optional_lines(key: Seq<char>, value: Option<Seq<char>>) -> Seq<char> {
    match value {
        Some(text) => written_property((key, text)),
        None => Seq::empty(),
    }
}

/// The block of an entry in the file, line by line: identifier, time of
/// writing, summary, description and location where the entry has them,
/// start and end.  The three stamps each stand on a line of their own.
pub open spec fn entry_block(entry: CalendarEntryView) -> Seq<char> {
    "BEGIN:VEVENT\r\n"@ + written_property((KEY_UID@, entry.uid)) + stamp_line(
        KEY_DTSTAMP@,
        entry.dtstamp,
    ) + written_property((KEY_SUMMARY@, entry.summary)) + optional_lines(
        KEY_DESCRIPTION@,
        entry.description,
    ) + optional_lines(KEY_LOCATION@, entry.location) + stamp_line(
        KEY_DTSTART@,
        entry.dtstart,
    ) + stamp_line(KEY_DTEND@, entry.dtend) + "END:VEVENT\r\n"@
}

/// The blocks of the entries of a calendar, in the order of the entries.
pub open spec fn entry_blocks(entries: Seq<CalendarEntryView>) -> Seq<Seq<char>> {
    Seq::new(entries.len(), |i: int| entry_block(entries[i]))
}

/// A property whose value is a stamp is short enough for one line, so it is
/// written as it is.
pub proof fn lemma_stamp_is_written_on_one_line(key: Seq<char>, seconds: int)
    requires
        is_stampable(seconds),
        is_ascii_chars(key),
        key.len() + 1 + STAMP_LEN <= LINE_LIMIT,
    ensures
        written_property((key, stamp_of(seconds))) == stamp_line(key, seconds),
{
    lemma_stamp_exists(seconds);
    let content = content_line((key, stamp_of(seconds)));
    assert(is_ascii_chars(content)) by {
        assert forall|i: int| 0 <= i < content.len() implies '\0' <= #[trigger] content[i]
            <= '\u{7f}' by {
            if i > key.len() {
                let at = i - key.len() - 1;
                assert(content[i] == stamp_of(seconds)[at]);
            }
        }
    }
    is_ascii_chars_encode_utf8(content);
    lemma_short_property_is_not_cut((key, stamp_of(seconds)));
}

/// The names of the three stamped properties are short and plain.
proof fn lemma_stamp_keys_fit()
    ensures
        is_ascii_chars(KEY_DTSTAMP@) && KEY_DTSTAMP@.len() == 7,
        is_ascii_chars(KEY_DTSTART@) && KEY_DTSTART@.len() == 7,
        is_ascii_chars(KEY_DTEND@) && KEY_DTEND@.len() == 5,
{
    reveal_strlit("DTSTAMP");
    reveal_strlit("DTSTART");
    reveal_strlit("DTEND");
}

/// The event of an entry stands in the file as the entry's block.
pub proof fn lemma_entry_is_written_as_its_block(entry: CalendarEntryView)
    requires
        entry.well_formed(),
    ensures
        written_event(entry_properties(entry)) == entry_block(entry),
{
    lemma_stamp_keys_fit();
    lemma_stamp_is_written_on_one_line(KEY_DTSTAMP@, entry.dtstamp);
    lemma_stamp_is_written_on_one_line(KEY_DTSTART@, entry.dtstart);
    lemma_stamp_is_written_on_one_line(KEY_DTEND@, entry.dtend);
    let uid = (KEY_UID@, entry.uid);
    let stamp = (KEY_DTSTAMP@, stamp_of(entry.dtstamp));
    let summary = (KEY_SUMMARY@, entry.summary);
    let start = (KEY_DTSTART@, stamp_of(entry.dtstart));
    let end = (KEY_DTEND@, stamp_of(entry.dtend));
    let head = seq![uid, stamp, summary];
    let description = optional_property(KEY_DESCRIPTION@, entry.description);
    let location = optional_property(KEY_LOCATION@, entry.location);
    let tail = seq![start, end];
    let none = Seq::<PropertyModel>::empty();
    assert(written_properties(none) == Seq::<char>::empty());
    lemma_written_push(none, uid);
    lemma_written_push(none.push(uid), stamp);
    lemma_written_push(none.push(uid).push(stamp), summary);
    assert(head =~= none.push(uid).push(stamp).push(summary));
    lemma_written_push(none, start);
    lemma_written_push(none.push(start), end);
    assert(tail =~= none.push(start).push(end));
    if let Some(text) = entry.description {
        lemma_written_push(none, (KEY_DESCRIPTION@, text));
        assert(description =~= none.push((KEY_DESCRIPTION@, text)));
    }
    if let Some(text) = entry.location {
        lemma_written_push(none, (KEY_LOCATION@, text));
        assert(location =~= none.push((KEY_LOCATION@, text)));
    }
    lemma_written_concat(head, description);
    lemma_written_concat(head + description, location);
    lemma_written_concat(head + description + location, tail);
    assert(written_event(entry_properties(entry)) =~= entry_block(entry));
}

/// The file is laid out as follows: the line that opens a calendar, the
/// version and the product identifier on a line each, one block for each
/// entry in the order of the entries, and the line that closes a calendar.
pub proof fn lemma_calendar_is_its_blocks(entries: Seq<CalendarEntryView>)
    requires
        forall|i: int| 0 <= i < entries.len() ==> (#[trigger] entries[i]).well_formed(),
    ensures
        entry_blocks(entries).len() == entries.len(),
        calendar_text(entries) == "BEGIN:VCALENDAR\r\n"@ + "VERSION:2.0\r\n"@ + "PRODID:ics-rs\r\n"@
            + entry_blocks(entries).flatten() + "END:VCALENDAR\r\n"@,
{
    let version = (KEY_VERSION@, CALENDAR_VERSION@);
    let product = (KEY_PRODID@, PRODUCT_ID@);
    let none = Seq::<PropertyModel>::empty();
    assert(written_property(version) == "VERSION:2.0\r\n"@) by {
        reveal_strlit("VERSION");
        reveal_strlit("2.0");
        reveal_strlit("\r\n");
        reveal_strlit("VERSION:2.0\r\n");
        assert(content_line(version).len() == 11);
        assert(is_ascii_chars(content_line(version)));
        is_ascii_chars_encode_utf8(content_line(version));
        lemma_short_property_is_not_cut(version);
        assert(content_line(version) + "\r\n"@ =~= "VERSION:2.0\r\n"@);
    }
    assert(written_property(product) == "PRODID:ics-rs\r\n"@) by {
        reveal_strlit("PRODID");
        reveal_strlit("ics-rs");
        reveal_strlit("\r\n");
        reveal_strlit("PRODID:ics-rs\r\n");
        assert(content_line(product).len() == 13);
        assert(is_ascii_chars(content_line(product)));
        is_ascii_chars_encode_utf8(content_line(product));
        lemma_short_property_is_not_cut(product);
        assert(content_line(product) + "\r\n"@ =~= "PRODID:ics-rs\r\n"@);
    }
    assert(written_properties(header_properties()) == "VERSION:2.0\r\n"@
        + "PRODID:ics-rs\r\n"@) by {
        assert(written_properties(none) == Seq::<char>::empty());
        lemma_written_push(none, version);
        lemma_written_push(none.push(version), product);
        assert(header_properties() =~= none.push(version).push(product));
        assert(Seq::<char>::empty() + "VERSION:2.0\r\n"@ =~= "VERSION:2.0\r\n"@);
    }
    lemma_events_are_blocks(document(entries));
    let blocks = document(entries).map_values(
        |event: Seq<PropertyModel>| written_event(event),
    );
    assert(blocks =~= entry_blocks(entries)) by {
        assert forall|i: int| 0 <= i < entries.len() implies blocks[i] == entry_blocks(entries)[i] by {
            lemma_entry_is_written_as_its_block(entries[i]);
        }
    }
    assert(calendar_text(entries) =~= "BEGIN:VCALENDAR\r\n"@ + "VERSION:2.0\r\n"@
        + "PRODID:ics-rs\r\n"@ + entry_blocks(entries).flatten() + "END:VCALENDAR\r\n"@);
}

/// The names of the properties of an entry's event, in order.
pub open spec fn entry_keys(entry: CalendarEntryView) -> Seq<Seq<char>> {
    entry_properties(entry).map_values(|p: PropertyModel| p.0)
}

/// The calendar has exactly one event for each platform event, in the same
/// order: the event at each place is the one made from the platform event at
/// that place.
pub proof fn lemma_one_event_per_platform_event(events: Seq<PlatformEvent>, now: int)
    ensures
        document(entries_for(events, now)).len() == events.len(),
        forall|i: int|
            0 <= i < events.len() ==> #[trigger] document(entries_for(events, now))[i]
                == entry_properties(entry_for(events[i]@, now)),
{
}

/// Every event of the calendar has an identifier, a time of writing, a
/// summary, a start and an end, once each and in this order; between
/// summary and start it has a description exactly when the platform event
/// has one, and then a location exactly when the platform event has one.
pub proof fn lemma_entry_has_its_properties(entry: CalendarEntryView)
    ensures
        entry_keys(entry) == seq![KEY_UID@, KEY_DTSTAMP@, KEY_SUMMARY@] + (if entry.description
            is Some {
            seq![KEY_DESCRIPTION@]
        } else {
            Seq::empty()
        }) + (if entry.location is Some {
            seq![KEY_LOCATION@]
        } else {
            Seq::empty()
        }) + seq![KEY_DTSTART@, KEY_DTEND@],
        entry_keys(entry).contains(KEY_UID@),
        entry_keys(entry).contains(KEY_DTSTAMP@),
        entry_keys(entry).contains(KEY_SUMMARY@),
        entry_keys(entry).contains(KEY_DTSTART@),
        entry_keys(entry).contains(KEY_DTEND@),
        entry_keys(entry).contains(KEY_DESCRIPTION@) <==> entry.description is Some,
        entry_keys(entry).contains(KEY_LOCATION@) <==> entry.location is Some,
{
    reveal_strlit("UID");
    reveal_strlit("DTSTAMP");
    reveal_strlit("SUMMARY");
    reveal_strlit("DESCRIPTION");
    reveal_strlit("LOCATION");
    reveal_strlit("DTSTART");
    reveal_strlit("DTEND");
    let keys = entry_keys(entry);
    let expected = seq![KEY_UID@, KEY_DTSTAMP@, KEY_SUMMARY@] + (if entry.description is Some {
        seq![KEY_DESCRIPTION@]
    } else {
        Seq::empty()
    }) + (if entry.location is Some {
        seq![KEY_LOCATION@]
    } else {
        Seq::empty()
    }) + seq![KEY_DTSTART@, KEY_DTEND@];
    assert(keys =~= expected);
    let n = keys.len() as int;
    assert(keys[0] == KEY_UID@);
    assert(keys[1] == KEY_DTSTAMP@);
    assert(keys[2] == KEY_SUMMARY@);
    assert(keys[n - 2] == KEY_DTSTART@);
    assert(keys[n - 1] == KEY_DTEND@);
    if entry.description is Some {
        assert(keys[3] == KEY_DESCRIPTION@);
    }
    if entry.location is Some {
        assert(keys[n - 3] == KEY_LOCATION@);
    }
}

/// An event that ends no earlier than it starts, or whose end the platform
/// does not report, gives an entry that ends no earlier than it starts; with
/// no end reported the entry ends one hour after it starts.  The stamps that
/// are written for start and end name these two instants, and the stamp of
/// the end does not sort before the stamp of the start.
pub proof fn lemma_entry_ends_after_start(event: PlatformEventView, now: int)
    requires
        event.well_formed(),
        event.end_time matches Some(end) ==> event.start_time <= end,
    ensures
        entry_for(event, now).dtstart <= entry_for(event, now).dtend,
        event.end_time is None ==> entry_for(event, now).dtend == entry_for(event, now).dtstart
            + DEFAULT_DURATION,
        is_stamp_of(stamp_of(entry_for(event, now).dtstart), entry_for(event, now).dtstart),
        is_stamp_of(stamp_of(entry_for(event, now).dtend), entry_for(event, now).dtend),
        sorts_no_later(
            stamp_of(entry_for(event, now).dtstart),
            stamp_of(entry_for(event, now).dtend),
        ),
{
    lemma_stamp_exists(event.start_time);
    lemma_stamp_exists(event.end());
    lemma_stamps_sort_like_instants(
        stamp_of(event.start_time),
        event.start_time,
        stamp_of(event.end()),
        event.end(),
    );
}

} // verus!
