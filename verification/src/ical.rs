//! The iCalendar objects of the `ics` crate, as this crate sees them.
//!
//! A calendar and an event are opaque here.  What they hold is named by the
//! spec functions below, and each call into `ics` says what it does to those
//! names.  The file that `ics` finally writes is laid out below as well.

use vstd::prelude::*;
use vstd::utf8::encode_utf8;

verus! {

/// A property as the calendar model holds it: its name and its value.
pub type PropertyModel = (Seq<char>, Seq<char>);

/// Declares `ics::ICalendar`, a calendar object; nothing inside it is seen.
#[verifier::external_type_specification]
#[verifier::external_body]
pub struct ExICalendar<'a>(ics::ICalendar<'a>);

/// Declares `ics::Event`, an event of a calendar; nothing inside it is seen.
#[verifier::external_type_specification]
#[verifier::external_body]
pub struct ExEvent<'a>(ics::Event<'a>);

/// Declares `std::io::Error`, the error of a byte sink; nothing inside it is
/// seen.
#[verifier::external_type_specification]
#[verifier::external_body]
pub struct ExIoError(std::io::Error);

/// Name of the property that `ICalendar::new` gives the version.
pub const KEY_VERSION: &'static str = "VERSION";

/// Name of the property that `ICalendar::new` gives the product identifier.
pub const KEY_PRODID: &'static str = "PRODID";

/// Name of the property that `Event::new` gives the identifier.
pub const KEY_UID: &'static str = "UID";

/// Name of the property that `Event::new` gives the time of writing.
pub const KEY_DTSTAMP: &'static str = "DTSTAMP";

/// The properties of an event, in the order in which they were added.
pub uninterp spec fn event_properties(event: ics::Event<'static>) -> Seq<PropertyModel>;

/// The event has no alarm, and none of its properties has a parameter.
pub uninterp spec fn event_is_plain(event: ics::Event<'static>) -> bool;

/// The calendar's own properties, in the order in which they were added.
pub uninterp spec fn calendar_properties(calendar: ics::ICalendar<'static>) -> Seq<PropertyModel>;

/// The events of a calendar, in the order in which they were added, each as
/// its properties.
pub uninterp spec fn calendar_events(calendar: ics::ICalendar<'static>) -> Seq<Seq<PropertyModel>>;

/// The calendar holds plain events and nothing else, and none of its own
/// properties has a parameter.
pub uninterp spec fn calendar_is_plain(calendar: ics::ICalendar<'static>) -> bool;

/// Longest property, in bytes of UTF-8, that `ics` writes on one line.
pub const LINE_LIMIT: usize = 75;

/// What is put between two lines of a property that is cut: the end of a
/// line, and a space that marks the next line as a continuation.
pub open spec fn line_break() -> Seq<char> {
    seq!['\r', '\n', ' ']
}

/// A property before it is cut into lines: the name, a colon, the value.
pub open spec fn content_line(property: PropertyModel) -> Seq<char> {
    property.0 + seq![':'] + property.1
}

/// `count` characters of `content` are as many as fit on a line: they take
/// at most [`LINE_LIMIT`] bytes, and one more would not fit.
pub open spec fn fills_a_line(content: Seq<char>, count: int) -> bool {
    &&& 0 <= count <= content.len()
    &&& encode_utf8(content.take(count)).len() <= LINE_LIMIT
    &&& count < content.len() ==> encode_utf8(content.take(count + 1)).len() > LINE_LIMIT
}

/// Number of characters that `ics` puts on the first line of `content`.
pub open spec fn first_line_len(content: Seq<char>) -> int {
    choose|count: int| fills_a_line(content, count)
}

/// A property cut into lines as `ics` cuts it: a property of at most
/// [`LINE_LIMIT`] bytes stays whole; of a longer one, each line holds as many
/// characters as fit, and the lines are joined by [`line_break`].
pub open spec fn folded(content: Seq<char>) -> Seq<char>
    decreases content.len(),
{
    let count = first_line_len(content);
    if encode_utf8(content).len() <= LINE_LIMIT || count <= 0 || count >= content.len() {
        content
    } else {
        content.take(count) + line_break() + folded(content.skip(count))
    }
}

/// A property as it stands in the file: cut into lines, then carriage
/// return and line feed.
pub open spec fn written_property(property: PropertyModel) -> Seq<char> {
    folded(content_line(property)) + "\r\n"@
}

/// Properties as they stand in the file: one after the other.
pub open spec fn written_properties(properties: Seq<PropertyModel>) -> Seq<char>
    decreases properties.len(),
{
    if properties.len() == 0 {
        Seq::empty()
    } else {
        written_properties(properties.drop_last()) + written_property(properties.last())
    }
}

/// A plain event as it stands in the file: its properties between the two
/// lines that open and close an event.
pub open spec fn written_event(properties: Seq<PropertyModel>) -> Seq<char> {
    "BEGIN:VEVENT\r\n"@ + written_properties(properties) + "END:VEVENT\r\n"@
}

/// Plain events as they stand in the file: one after the other.
pub open spec fn written_events(events: Seq<Seq<PropertyModel>>) -> Seq<char>
    decreases events.len(),
{
    if events.len() == 0 {
        Seq::empty()
    } else {
        written_events(events.drop_last()) + written_event(events.last())
    }
}

/// The file of a plain calendar: between the two lines that open and close
/// a calendar, first its own properties, then its events.
pub open spec fn written_calendar(
    properties: Seq<PropertyModel>,
    events: Seq<Seq<PropertyModel>>,
) -> Seq<char> {
    "BEGIN:VCALENDAR\r\n"@ + written_properties(properties) + written_events(events)
        + "END:VCALENDAR\r\n"@
}

/// A property of at most [`LINE_LIMIT`] bytes stands in the file as it is.
pub proof fn lemma_short_property_is_not_cut(property: PropertyModel)
    requires
        encode_utf8(content_line(property)).len() <= LINE_LIMIT,
    ensures
        written_property(property) == content_line(property) + "\r\n"@,
{
}

/// One more property stands after the others.
pub proof fn lemma_written_push(properties: Seq<PropertyModel>, property: PropertyModel)
    ensures
        written_properties(properties.push(property)) == written_properties(properties)
            + written_property(property),
{
    assert(properties.push(property).drop_last() =~= properties);
}

/// Properties that are put together stand together, in the same order.
pub proof fn lemma_written_concat(first: Seq<PropertyModel>, second: Seq<PropertyModel>)
    ensures
        written_properties(first + second) == written_properties(first) + written_properties(
            second,
        ),
    decreases second.len(),
{
    if second.len() == 0 {
        assert(first + second =~= first);
        assert(written_properties(first) + written_properties(second) =~= written_properties(
            first,
        ));
    } else {
        lemma_written_concat(first, second.drop_last());
        assert((first + second).drop_last() =~= first + second.drop_last());
        assert(written_properties(first + second) =~= written_properties(first)
            + written_properties(second));
    }
}

/// The events of a file are its blocks: the file holds, one after the other
/// and in order, one block for each event.
pub proof fn lemma_events_are_blocks(events: Seq<Seq<PropertyModel>>)
    ensures
        written_events(events) == events.map_values(
            |event: Seq<PropertyModel>| written_event(event),
        ).flatten(),
    decreases events.len(),
{
    let blocks = events.map_values(|event: Seq<PropertyModel>| written_event(event));
    blocks.lemma_flatten_and_flatten_alt_are_equivalent();
    if events.len() > 0 {
        lemma_events_are_blocks(events.drop_last());
        let before = events.drop_last().map_values(
            |event: Seq<PropertyModel>| written_event(event),
        );
        before.lemma_flatten_and_flatten_alt_are_equivalent();
        assert(blocks.drop_last() =~= before);
    }
}

/// Calls `ICalendar::new` of `ics`.
///
/// Trusted: the new calendar is plain, has no event, and has two properties,
/// the version and then the product identifier.
#[verifier::external_body]
pub(crate) fn calendar_new(version: &str, product: &str) -> (r: ics::ICalendar<'static>)
    ensures
        calendar_properties(r) == seq![(KEY_VERSION@, version@), (KEY_PRODID@, product@)],
        calendar_events(r) == Seq::<Seq<PropertyModel>>::empty(),
        calendar_is_plain(r),
{
    ics::ICalendar::new(version.to_owned(), product.to_owned())
}

/// Calls `Event::new` of `ics`.
///
/// Trusted: the new event is plain and has two properties, the identifier
/// and then the time of writing.
#[verifier::external_body]
pub(crate) fn event_new(uid: String, stamp: String) -> (r: ics::Event<'static>)
    ensures
        event_properties(r) == seq![(KEY_UID@, uid@), (KEY_DTSTAMP@, stamp@)],
        event_is_plain(r),
{
    ics::Event::new(uid, stamp)
}

/// Calls `Property::new` and `Event::push` of `ics`.
///
/// Trusted: the event gains one property without parameters at its end, with
/// this name and value, and is otherwise as before.
#[verifier::external_body]
pub(crate) fn event_push(event: &mut ics::Event<'static>, key: &str, value: String)
    ensures
        event_properties(*final(event)) == event_properties(*old(event)).push((key@, value@)),
        event_is_plain(*final(event)) == event_is_plain(*old(event)),
{
    event.push(ics::components::Property::new(key.to_owned(), value));
}

/// Calls `ICalendar::add_event` of `ics`.
///
/// Trusted: the calendar gains the event at its end and is otherwise as
/// before.
#[verifier::external_body]
pub(crate) fn calendar_add_event(calendar: &mut ics::ICalendar<'static>, event: ics::Event<'static>)
    ensures
        calendar_events(*final(calendar)) == calendar_events(*old(calendar)).push(
            event_properties(event),
        ),
        calendar_properties(*final(calendar)) == calendar_properties(*old(calendar)),
        calendar_is_plain(*final(calendar)) == (calendar_is_plain(*old(calendar))
            && event_is_plain(event)),
{
    calendar.add_event(event);
}

/// Calls `ICalendar::write` of `ics` on a fresh vector of bytes.
///
/// Trusted: the call succeeds, and what is written for a plain calendar is
/// the text laid out in [`written_calendar`], in UTF-8: the lines that open
/// and close calendar and events, and each property cut into lines as
/// [`folded`] says.  `ics` formats into the writer and fails only where the
/// writer does, and a vector of bytes takes whatever is appended to it.
#[verifier::external_body]
pub(crate) fn calendar_write(calendar: &ics::ICalendar<'static>) -> (r: Result<
    Vec<u8>,
    std::io::Error,
>)
    requires
        calendar_is_plain(*calendar),
    ensures
        r is Ok,
        r matches Ok(bytes) ==> bytes@ == encode_utf8(
            written_calendar(calendar_properties(*calendar), calendar_events(*calendar)),
        ),
{
    let mut bytes = Vec::new();
    match calendar.write(&mut bytes) {
        Ok(()) => Ok(bytes),
        Err(e) => Err(e),
    }
}

} // verus!
