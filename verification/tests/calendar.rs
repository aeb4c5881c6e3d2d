use ics::properties::{Description, DtEnd, DtStart, Location, Summary};
use ics::{Event, ICalendar};
use meetup_events::civil::{CivilDateTime, FIRST_SECOND, LAST_SECOND};
use meetup_events::export::{
    calendar_entries, encode, encode_at, encode_entries, written, CalendarEntry, ExportError,
    PlatformEvent, ATTACHMENT_NAME, CALENDAR_VERSION, PRODUCT_ID,
};
use meetup_events::stamp::{can_stamp, utc_stamp};
use meetup_events::text::{clone_text, decimal};

const NOW: i64 = 1_700_000_000;

fn event(id: u64, name: &str, start: i64) -> PlatformEvent {
    PlatformEvent {
        id,
        name: name.to_string(),
        description: None,
        location: None,
        start_time: start,
        end_time: None,
    }
}

fn text(bytes: Vec<u8>) -> String {
    String::from_utf8(bytes).unwrap()
}

fn count(haystack: &str, needle: &str) -> usize {
    haystack.matches(needle).count()
}

#[test]
fn no_events_give_a_calendar_without_entries() {
    let bytes = encode_at(&Vec::new(), NOW).unwrap();
    assert_eq!(
        text(bytes),
        "BEGIN:VCALENDAR\r\nVERSION:2.0\r\nPRODID:ics-rs\r\nEND:VCALENDAR\r\n"
    );
    let now = text(encode(&Vec::new()).unwrap());
    assert_eq!(now, "BEGIN:VCALENDAR\r\nVERSION:2.0\r\nPRODID:ics-rs\r\nEND:VCALENDAR\r\n");
}

#[test]
fn an_event_without_end_lasts_an_hour() {
    let out = text(encode_at(&vec![event(1, "X", 1_717_236_000)], NOW).unwrap());
    assert!(out.contains("DTSTART:20240601T100000Z\r\n"));
    assert!(out.contains("DTEND:20240601T110000Z\r\n"));
    assert!(out.contains("SUMMARY:X\r\n"));
}

#[test]
fn a_full_event_is_written_property_by_property() {
    let e = PlatformEvent {
        id: 42,
        name: "Stammtisch".to_string(),
        description: Some("Monthly meetup".to_string()),
        location: Some("Pub".to_string()),
        start_time: 1_717_236_000,
        end_time: Some(1_717_236_000 + 2 * 3600 + 30 * 60 + 15),
    };
    let out = text(encode_at(&vec![e], NOW).unwrap());
    assert_eq!(
        out,
        "BEGIN:VCALENDAR\r\n\
         VERSION:2.0\r\n\
         PRODID:ics-rs\r\n\
         BEGIN:VEVENT\r\n\
         UID:42\r\n\
         DTSTAMP:20231114T221320Z\r\n\
         SUMMARY:Stammtisch\r\n\
         DESCRIPTION:Monthly meetup\r\n\
         LOCATION:Pub\r\n\
         DTSTART:20240601T100000Z\r\n\
         DTEND:20240601T123015Z\r\n\
         END:VEVENT\r\n\
         END:VCALENDAR\r\n"
    );
}

#[test]
fn there_is_one_block_for_each_event() {
    for n in [0usize, 1, 2, 7, 50] {
        let events: Vec<PlatformEvent> =
            (0..n).map(|i| event(i as u64, "Treffen", 1_717_236_000 + i as i64)).collect();
        let out = text(encode_at(&events, NOW).unwrap());
        assert_eq!(count(&out, "BEGIN:VEVENT\r\n"), n);
        assert_eq!(count(&out, "END:VEVENT\r\n"), n);
        assert_eq!(count(&out, "BEGIN:VCALENDAR\r\n"), 1);
        assert_eq!(count(&out, "END:VCALENDAR\r\n"), 1);
        assert_eq!(calendar_entries(&events, NOW).len(), n);
    }
}

#[test]
fn every_block_has_the_required_properties() {
    let events = vec![event(1, "a", 0), event(2, "b", 60), event(3, "c", 120)];
    let out = text(encode_at(&events, NOW).unwrap());
    for block in out.split("BEGIN:VEVENT\r\n").skip(1) {
        let block = block.split("END:VEVENT\r\n").next().unwrap();
        for key in ["UID:", "DTSTAMP:", "SUMMARY:", "DTSTART:", "DTEND:"] {
            assert_eq!(block.lines().filter(|l| l.starts_with(key)).count(), 1, "{}", key);
        }
        assert_eq!(block.lines().filter(|l| l.starts_with("DESCRIPTION:")).count(), 0);
        assert_eq!(block.lines().filter(|l| l.starts_with("LOCATION:")).count(), 0);
    }
}

#[test]
fn description_and_location_appear_exactly_when_present() {
    for (description, location) in
        [(None, None), (Some("d"), None), (None, Some("l")), (Some("d"), Some("l"))]
    {
        let mut e = event(9, "n", 0);
        e.description = description.map(|s: &str| s.to_string());
        e.location = location.map(|s: &str| s.to_string());
        let out = text(encode_at(&vec![e], NOW).unwrap());
        assert_eq!(out.contains("DESCRIPTION:d\r\n"), description.is_some());
        assert_eq!(out.contains("DESCRIPTION"), description.is_some());
        assert_eq!(out.contains("LOCATION:l\r\n"), location.is_some());
        assert_eq!(out.contains("LOCATION"), location.is_some());
    }
}

#[test]
fn an_empty_description_is_still_a_description() {
    let mut e = event(9, "n", 0);
    e.description = Some(String::new());
    let out = text(encode_at(&vec![e], NOW).unwrap());
    assert!(out.contains("DESCRIPTION:\r\n"));
}

#[test]
fn events_keep_their_order_and_duplicates_stay() {
    let events = vec![event(3, "c", 300), event(1, "a", 100), event(3, "c", 300), event(2, "b", 200)];
    let out = text(encode_at(&events, NOW).unwrap());
    let uids: Vec<&str> = out.lines().filter(|l| l.starts_with("UID:")).collect();
    assert_eq!(uids, vec!["UID:3", "UID:1", "UID:3", "UID:2"]);
}

#[test]
fn the_end_is_not_earlier_than_the_start_under_the_default() {
    for start in [FIRST_SECOND, -1, 0, 1_717_236_000, LAST_SECOND - 3600] {
        let entry = event(1, "n", start).calendar_entry(NOW);
        assert_eq!(entry.dtstart, start);
        assert_eq!(entry.dtend, start + 3600);
        assert!(utc_stamp(entry.dtend) > utc_stamp(entry.dtstart));
    }
}

#[test]
fn a_reported_end_is_taken_as_it_is() {
    let mut e = event(1, "n", 1000);
    e.end_time = Some(500);
    let entry = e.calendar_entry(NOW);
    assert_eq!(entry.dtend, 500);
    let out = text(encode_at(&vec![e], NOW).unwrap());
    assert!(out.contains("DTSTART:19700101T001640Z\r\n"));
    assert!(out.contains("DTEND:19700101T000820Z\r\n"));
}

#[test]
fn an_entry_copies_the_event() {
    let e = PlatformEvent {
        id: 18_446_744_073_709_551_615,
        name: "Name".to_string(),
        description: Some("Text".to_string()),
        location: None,
        start_time: 10,
        end_time: Some(20),
    };
    assert_eq!(
        e.calendar_entry(NOW),
        CalendarEntry {
            uid: "18446744073709551615".to_string(),
            dtstamp: NOW,
            summary: "Name".to_string(),
            description: Some("Text".to_string()),
            location: None,
            dtstart: 10,
            dtend: 20,
        }
    );
    assert_eq!(calendar_entries(&vec![e.clone(), e.clone()], 5)[1].dtstamp, 5);
}

#[test]
fn the_identifier_is_the_same_in_every_export() {
    let events = vec![event(1_234_567_890_123, "n", 0)];
    let first = text(encode_at(&events, NOW).unwrap());
    let second = text(encode_at(&events, NOW + 1000).unwrap());
    assert!(first.contains("UID:1234567890123\r\n"));
    assert!(second.contains("UID:1234567890123\r\n"));
    assert_ne!(first, second);
}

#[test]
fn the_time_of_writing_is_the_given_instant() {
    let out = text(encode_at(&vec![event(1, "n", 0)], NOW).unwrap());
    assert!(out.contains("DTSTAMP:20231114T221320Z\r\n"));
}

#[test]
fn an_export_as_of_now_is_stamped_with_the_clock() {
    let before = chrono::Utc::now().timestamp();
    let out = text(encode(&vec![event(1, "n", 0)]).unwrap());
    let after = chrono::Utc::now().timestamp();
    let line = out.lines().find(|l| l.starts_with("DTSTAMP:")).unwrap();
    assert!((before..=after).any(|t| line == format!("DTSTAMP:{}", utc_stamp(t))));
}

#[test]
fn long_lines_are_folded_by_the_calendar_writer() {
    let name = "x".repeat(200);
    let out = text(encode_at(&vec![event(1, &name, 0)], NOW).unwrap());
    assert!(out.contains("\r\n "));
    assert!(out.lines().all(|l| l.len() <= 76));
    assert_eq!(out.replace("\r\n ", "").lines().filter(|l| *l == format!("SUMMARY:{}", name)).count(), 1);
}

/// A property cut into lines: each line takes as many characters as fit in
/// 75 bytes, and the lines are joined by carriage return, line feed, space.
fn cut_into_lines(content: &str) -> String {
    let mut out = String::new();
    let mut rest = content;
    while rest.len() > 75 {
        let mut count = 0;
        for (at, c) in rest.char_indices() {
            if at + c.len_utf8() > 75 {
                break;
            }
            count = at + c.len_utf8();
        }
        out.push_str(&rest[..count]);
        out.push_str("\r\n ");
        rest = &rest[count..];
    }
    out.push_str(rest);
    out
}

#[test]
fn a_long_property_is_cut_where_no_more_characters_fit() {
    let names = [
        "x".repeat(67),
        "x".repeat(68),
        "x".repeat(75),
        "x".repeat(76),
        "x".repeat(150),
        "x".repeat(1000),
        "ä".repeat(33),
        "ä".repeat(34),
        "ä".repeat(35),
        "ä".repeat(200),
        format!("{}€{}", "x".repeat(66), "y".repeat(80)),
        format!("{}€{}", "x".repeat(65), "y".repeat(80)),
        format!("{}🍺{}", "x".repeat(64), "🍺".repeat(40)),
        format!("{}🍺{}", "x".repeat(63), "🍺".repeat(40)),
        "老虎 ".repeat(60),
        "a\r\n b".repeat(30),
    ];
    for name in names {
        let out = text(encode_at(&vec![event(1, &name, 0)], NOW).unwrap());
        let expected = format!("{}\r\n", cut_into_lines(&format!("SUMMARY:{}", name)));
        assert!(out.contains(&format!("UID:1\r\nDTSTAMP:20231114T221320Z\r\n{}DTSTART:", expected)), "{:?}", name);
    }
}

#[test]
fn the_file_is_what_the_calendar_crate_writes_for_the_same_calls() {
    let e = PlatformEvent {
        id: 7,
        name: "Grillen im Park mit sehr vielen Leuten und noch mehr Würstchen, bitte alle kommen".to_string(),
        description: Some("Bring your own 🍺".to_string()),
        location: Some("Volkspark".to_string()),
        start_time: 1_717_236_000,
        end_time: None,
    };
    let mut calendar = ICalendar::new("2.0", "ics-rs");
    let mut ics_event = Event::new("7", "20231114T221320Z");
    ics_event.push(Summary::new(e.name.clone()));
    ics_event.push(Description::new("Bring your own 🍺"));
    ics_event.push(Location::new("Volkspark"));
    ics_event.push(DtStart::new("20240601T100000Z"));
    ics_event.push(DtEnd::new("20240601T110000Z"));
    calendar.add_event(ics_event);
    let mut expected = Vec::new();
    calendar.write(&mut expected).unwrap();
    assert_eq!(encode_at(&vec![e], NOW).unwrap(), expected);
}

#[test]
fn entries_are_written_as_they_are() {
    let entry = CalendarEntry {
        uid: "abc".to_string(),
        dtstamp: 0,
        summary: "S".to_string(),
        description: None,
        location: Some("L".to_string()),
        dtstart: 86_400,
        dtend: 86_400,
    };
    assert_eq!(
        text(encode_entries(&vec![entry]).unwrap()),
        "BEGIN:VCALENDAR\r\nVERSION:2.0\r\nPRODID:ics-rs\r\nBEGIN:VEVENT\r\nUID:abc\r\n\
         DTSTAMP:19700101T000000Z\r\nSUMMARY:S\r\nLOCATION:L\r\nDTSTART:19700102T000000Z\r\n\
         DTEND:19700102T000000Z\r\nEND:VEVENT\r\nEND:VCALENDAR\r\n"
    );
}

#[test]
fn a_failure_of_the_byte_sink_is_an_io_error() {
    let failure = std::io::Error::new(std::io::ErrorKind::Other, "full");
    assert_eq!(written(Err(failure)), Err(ExportError::Io));
    assert_eq!(written(Ok(vec![1, 2, 3])), Ok(vec![1, 2, 3]));
}

#[test]
fn an_instant_of_writing_that_no_stamp_can_name_is_a_clock_error() {
    let events = vec![event(1, "n", 0)];
    assert_eq!(encode_at(&events, LAST_SECOND + 1), Err(ExportError::Clock));
    assert_eq!(encode_at(&events, FIRST_SECOND - 1), Err(ExportError::Clock));
    assert_eq!(encode_at(&events, i64::MAX), Err(ExportError::Clock));
    assert_eq!(encode_at(&Vec::new(), i64::MIN), Err(ExportError::Clock));
    assert!(encode_at(&events, LAST_SECOND).is_ok());
    assert!(encode_at(&events, FIRST_SECOND).is_ok());
}

#[test]
fn export_errors_have_their_sentences() {
    assert_eq!(ExportError::Clock.message(), "The clock does not show a year from 0000 to 9999");
    assert_eq!(ExportError::Io.message(), "Couldn't write the calendar");
}

#[test]
fn well_formed_events_are_those_a_stamp_can_name() {
    assert!(event(1, "n", 0).is_well_formed());
    assert!(event(1, "n", FIRST_SECOND).is_well_formed());
    assert!(!event(1, "n", FIRST_SECOND - 1).is_well_formed());
    assert!(event(1, "n", LAST_SECOND - 3600).is_well_formed());
    assert!(!event(1, "n", LAST_SECOND - 3599).is_well_formed());
    assert!(!event(1, "n", i64::MAX).is_well_formed());
    assert!(!event(1, "n", i64::MIN).is_well_formed());
    let mut e = event(1, "n", LAST_SECOND);
    e.end_time = Some(LAST_SECOND);
    assert!(e.is_well_formed());
    e.end_time = Some(LAST_SECOND + 1);
    assert!(!e.is_well_formed());
    e.end_time = Some(FIRST_SECOND - 1);
    assert!(!e.is_well_formed());
}

#[test]
fn stamps_are_utc_in_the_basic_format() {
    assert_eq!(utc_stamp(0), "19700101T000000Z");
    assert_eq!(utc_stamp(1_717_236_000), "20240601T100000Z");
    assert_eq!(utc_stamp(-1), "19691231T235959Z");
    assert_eq!(utc_stamp(FIRST_SECOND), "00000101T000000Z");
    assert_eq!(utc_stamp(LAST_SECOND), "99991231T235959Z");
    assert_eq!(utc_stamp(951_782_399), "20000228T235959Z");
    assert_eq!(utc_stamp(951_782_400), "20000229T000000Z");
    assert!(can_stamp(FIRST_SECOND) && can_stamp(LAST_SECOND));
    assert!(!can_stamp(FIRST_SECOND - 1) && !can_stamp(LAST_SECOND + 1));
}

#[test]
fn a_stamp_read_back_names_its_instant() {
    let mut t = FIRST_SECOND;
    while t <= LAST_SECOND {
        let s = utc_stamp(t);
        assert_eq!(s.len(), 16);
        assert_eq!(&s[8..9], "T");
        assert_eq!(&s[15..16], "Z");
        let field = |from: usize, to: usize| s[from..to].parse::<u32>().unwrap();
        let civil = CivilDateTime::new(field(0, 4) as i32, field(4, 6), field(6, 8), field(9, 11), field(11, 13)).unwrap();
        assert!(field(13, 15) < 60);
        assert_eq!(civil.epoch_seconds() + i64::from(field(13, 15)), t);
        t += 86_400 * 365 * 3 + 3_601 * 7 + 13;
    }
}

#[test]
fn numbers_are_written_in_decimal() {
    assert_eq!(decimal(0), "0");
    assert_eq!(decimal(7), "7");
    assert_eq!(decimal(10), "10");
    assert_eq!(decimal(1_234_567_890), "1234567890");
    assert_eq!(decimal(u64::MAX), u64::MAX.to_string());
    for n in [9u64, 11, 99, 100, 101, 1_000_000, 999_999_999_999] {
        assert_eq!(decimal(n), n.to_string());
    }
    assert_eq!(clone_text(&Some("a".to_string())), Some("a".to_string()));
    assert_eq!(clone_text(&None), None);
}

#[test]
fn the_file_has_its_name_version_and_product() {
    assert_eq!(ATTACHMENT_NAME, "calendar.ics");
    assert_eq!(CALENDAR_VERSION, "2.0");
    assert_eq!(PRODUCT_ID, "ics-rs");
}
