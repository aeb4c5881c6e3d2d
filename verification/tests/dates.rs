use chrono::{Datelike, NaiveDateTime, Timelike};
use meetup_events::civil::{month_length, CivilDateTime};
use meetup_events::draft::{draft, EventDraft};
use meetup_events::grammar::parse_civil;
use meetup_events::normalize::{
    parse_date, parse_start_and_end_date, DateField, NormalizeError, ParseIssue,
    DEFAULT_DURATION,
};
use meetup_events::zone::ZonedInstant;

fn normalize(start: &str, end: Option<&str>) -> Result<(ZonedInstant, ZonedInstant), NormalizeError> {
    parse_start_and_end_date(start.to_string(), end.map(|e| e.to_string()))
}

#[test]
fn test_parse_dates() {
    let (start, end) = parse_start_and_end_date("1970-01-01 00:00".to_string(), None).unwrap();
    assert_eq!(start.to_rfc3339(), "1970-01-01T00:00:00+01:00");
    assert_eq!(end.to_rfc3339(), "1970-01-01T01:00:00+01:00");

    let (start, end) = parse_start_and_end_date(
        "2012-12-31 12:34".to_string(),
        Some("2013-01-01 21:43".to_string()),
    )
    .unwrap();
    assert_eq!(start.to_rfc3339(), "2012-12-31T12:34:00+01:00");
    assert_eq!(end.to_rfc3339(), "2013-01-01T21:43:00+01:00");
}

#[test]
fn test_reject_invalid_dates() {
    assert!(parse_start_and_end_date("".to_string(), None).is_err());
    assert!(
        parse_start_and_end_date("1970-01-01 00:00".to_string(), Some("".to_string())).is_err()
    );
    assert!(parse_start_and_end_date("not a date".to_string(), None).is_err());
    assert!(parse_start_and_end_date(
        "1970-01-01 00:00".to_string(),
        Some("not a date".to_string()),
    )
    .is_err());
}

#[test]
fn empty_start_is_a_parse_error_of_the_start() {
    assert_eq!(normalize("", None), Err(NormalizeError::Parse(ParseIssue::Start)));
}

#[test]
fn empty_end_is_a_parse_error_of_the_end() {
    assert_eq!(
        normalize("1970-01-01 00:00", Some("")),
        Err(NormalizeError::Parse(ParseIssue::End))
    );
}

#[test]
fn words_are_a_parse_error() {
    assert_eq!(normalize("not a date", None), Err(NormalizeError::Parse(ParseIssue::Start)));
}

#[test]
fn malformed_end_after_valid_start_is_a_parse_error_of_the_end() {
    assert_eq!(
        normalize("1970-01-01 00:00", Some("not a date")),
        Err(NormalizeError::Parse(ParseIssue::End))
    );
}

#[test]
fn an_error_of_the_start_wins_over_one_of_the_end() {
    assert_eq!(normalize("x", Some("y")), Err(NormalizeError::Parse(ParseIssue::Start)));
    assert_eq!(
        normalize("2024-03-31 02:30", Some("y")),
        Err(NormalizeError::Zone(DateField::Start))
    );
}

#[test]
fn leap_day_is_accepted() {
    let (start, end) = normalize("2024-02-29 00:00", None).unwrap();
    assert_eq!(start.to_rfc3339(), "2024-02-29T00:00:00+01:00");
    assert_eq!(start.utc_seconds, 1709164800 - 3600);
    assert_eq!(end.to_rfc3339(), "2024-02-29T01:00:00+01:00");
}

#[test]
fn the_29th_of_february_of_a_common_year_is_rejected() {
    assert_eq!(normalize("2023-02-29 00:00", None), Err(NormalizeError::Parse(ParseIssue::Start)));
    assert_eq!(normalize("1900-02-29 00:00", None), Err(NormalizeError::Parse(ParseIssue::Start)));
    assert!(normalize("2000-02-29 00:00", None).is_ok());
}

#[test]
fn default_end_is_one_hour_of_elapsed_time_later() {
    for text in ["1970-01-01 00:00", "2024-06-01 12:00", "2024-03-31 01:30", "2024-10-27 02:30"] {
        let (start, end) = normalize(text, None).unwrap();
        assert_eq!(end.utc_seconds - start.utc_seconds, 3600);
        assert_eq!(DEFAULT_DURATION, 3600);
    }
}

#[test]
fn default_end_carries_the_offset_of_its_own_instant() {
    // The clocks go forward at 02:00 on this day: an hour after 01:30 it is 03:30.
    let (start, end) = normalize("2024-03-31 01:30", None).unwrap();
    assert_eq!(start.to_rfc3339(), "2024-03-31T01:30:00+01:00");
    assert_eq!(end.to_rfc3339(), "2024-03-31T03:30:00+02:00");
    assert_eq!(start.utc_seconds, 1711845000);
    assert_eq!(end.offset_seconds, 7200);
}

#[test]
fn the_same_text_twice_gives_the_same_instant_twice() {
    for text in ["1970-01-01 00:00", "2012-12-31 12:34", "2024-10-27 02:30"] {
        let (start, end) = normalize(text, Some(text)).unwrap();
        assert_eq!(start, end);
    }
}

#[test]
fn the_reading_of_the_start_is_the_one_that_was_typed() {
    for text in ["1970-01-01 00:00", "2012-12-31 12:34", "2024-07-15 23:59", "0000-01-01 00:00", "9999-12-31 23:59"] {
        let civil = parse_civil(text).unwrap();
        let (start, _) = normalize(text, None).unwrap();
        assert_eq!(start.utc_seconds + i64::from(start.offset_seconds), civil.epoch_seconds());
        assert_eq!(ZonedInstant::at(start.utc_seconds), start);
        let shown = start.to_rfc3339();
        assert_eq!(&shown[0..10], &text[0..10]);
        assert_eq!(&shown[11..16], &text[11..16]);
    }
}

#[test]
fn a_skipped_reading_is_a_zone_error() {
    assert_eq!(normalize("2024-03-31 02:30", None), Err(NormalizeError::Zone(DateField::Start)));
    assert_eq!(normalize("2024-03-31 02:00", None), Err(NormalizeError::Zone(DateField::Start)));
    assert_eq!(
        normalize("2024-03-31 01:00", Some("2024-03-31 02:59")),
        Err(NormalizeError::Zone(DateField::End))
    );
    assert!(normalize("2024-03-31 03:00", None).is_ok());
    assert!(normalize("2024-03-31 01:59", None).is_ok());
}

#[test]
fn a_repeated_reading_stands_for_the_earlier_instant() {
    // The clocks go back from 03:00 to 02:00 on this day.
    let (start, end) = normalize("2024-10-27 02:30", None).unwrap();
    assert_eq!(start.to_rfc3339(), "2024-10-27T02:30:00+02:00");
    assert_eq!(start.utc_seconds, 1729989000);
    assert_eq!(end.to_rfc3339(), "2024-10-27T02:30:00+01:00");
}

#[test]
fn summer_dates_have_the_summer_offset() {
    let (start, end) = normalize("2024-06-01 12:00", Some("2024-12-01 12:00")).unwrap();
    assert_eq!(start.to_rfc3339(), "2024-06-01T12:00:00+02:00");
    assert_eq!(end.to_rfc3339(), "2024-12-01T12:00:00+01:00");
}

#[test]
fn the_order_of_start_and_end_is_not_checked_by_the_normalizer() {
    let (start, end) = normalize("2024-06-01 12:00", Some("2024-05-01 12:00")).unwrap();
    assert!(end.utc_seconds < start.utc_seconds);
}

#[test]
fn the_grammar_takes_exactly_the_padded_form() {
    assert_eq!(
        parse_civil("2012-12-21 12:34"),
        Some(CivilDateTime { year: 2012, month: 12, day: 21, hour: 12, minute: 34 })
    );
    assert_eq!(
        parse_civil("0001-02-03 04:05"),
        Some(CivilDateTime { year: 1, month: 2, day: 3, hour: 4, minute: 5 })
    );
    for text in [
        "",
        "not a date",
        "2012-12-21",
        "12:34",
        "2012-12-21 12:34:56",
        "2012-12-21 12:34 ",
        " 2012-12-21 12:34",
        "2012-12-21  12:34",
        "2012-12-21T12:34",
        "2012-12-21\t12:34",
        "2012-1-21 12:34",
        "2012-12-1 12:34",
        "2012-12-21 1:34",
        "2012-12-21 12:3",
        "12-12-21 12:34",
        "02012-12-21 12:34",
        "+2012-12-21 12:34",
        "2012/12/21 12:34",
        "2012-12-21 12.34",
        "2012-12-21 12:34Z",
        "2012-12-21 12:34+01:00",
        "2012-12-21 12:3x",
        "2O12-12-21 12:34",
        "２０１２-12-21 12:34",
        "2012-12-21 12:34\n",
    ] {
        assert_eq!(parse_civil(text), None, "{:?}", text);
    }
}

#[test]
fn the_grammar_rejects_fields_out_of_range() {
    for text in [
        "2012-00-21 12:34",
        "2012-13-21 12:34",
        "2012-12-00 12:34",
        "2012-12-32 12:34",
        "2012-04-31 12:34",
        "2012-06-31 12:34",
        "2012-09-31 12:34",
        "2012-11-31 12:34",
        "2012-02-30 12:34",
        "2012-12-21 24:00",
        "2012-12-21 12:60",
        "2012-12-21 99:99",
    ] {
        assert_eq!(parse_civil(text), None, "{:?}", text);
    }
    for text in ["2012-01-31 00:00", "2012-04-30 23:59", "2012-02-29 12:00", "2012-12-31 23:59"] {
        assert!(parse_civil(text).is_some(), "{:?}", text);
    }
}

#[test]
fn what_the_grammar_accepts_reads_the_same_with_chrono() {
    for year in [0, 1, 999, 1000, 1970, 2024, 9999] {
        for month in 1..=12u32 {
            for day in [1, 15, month_length(year, month)] {
                for (hour, minute) in [(0u32, 0u32), (9, 5), (12, 34), (23, 59)] {
                    let text = format!("{:04}-{:02}-{:02} {:02}:{:02}", year, month, day, hour, minute);
                    let ours = parse_civil(&text).unwrap();
                    let theirs = NaiveDateTime::parse_from_str(&text, "%Y-%m-%d %H:%M").unwrap();
                    assert_eq!(
                        (ours.year, ours.month, ours.day, ours.hour, ours.minute),
                        (theirs.year(), theirs.month(), theirs.day(), theirs.hour(), theirs.minute())
                    );
                    assert_eq!(ours, CivilDateTime { year, month, day, hour, minute });
                    assert_eq!(theirs.second(), 0);
                }
            }
        }
    }
}

#[test]
fn the_grammar_is_stricter_than_a_lenient_reader() {
    // Forms without padding, with a sign or with other white space are read
    // by chrono's pattern, and are no dates of the grammar.
    for text in ["2012-1-2 3:4", "2012-12-21  12:34", " 2012-12-21 12:34", "+2012-12-21 12:34", "2012-12-21\t12:34"] {
        assert!(NaiveDateTime::parse_from_str(text, "%Y-%m-%d %H:%M").is_ok(), "{:?}", text);
        assert_eq!(parse_civil(text), None, "{:?}", text);
    }
    // What chrono's pattern rejects, the grammar rejects too.
    for text in ["", "not a date", "2012-12-21", "2012-13-01 00:00", "2023-02-29 00:00", "2012-12-21 24:00", "2012-12-21 12:34 "] {
        assert!(NaiveDateTime::parse_from_str(text, "%Y-%m-%d %H:%M").is_err(), "{:?}", text);
        assert_eq!(parse_civil(text), None, "{:?}", text);
    }
}

#[test]
fn one_date_is_read_like_the_start_of_two() {
    assert_eq!(
        parse_date("2012-12-31 12:34", DateField::End),
        Ok(ZonedInstant { utc_seconds: 1356953640, offset_seconds: 3600 })
    );
    assert_eq!(parse_date("2012-12-31", DateField::End), Err(NormalizeError::Parse(ParseIssue::End)));
    assert_eq!(parse_date("2024-03-31 02:30", DateField::End), Err(NormalizeError::Zone(DateField::End)));
}

#[test]
fn a_field_that_cannot_be_read_is_its_own_issue() {
    assert_eq!(DateField::Start.issue(), ParseIssue::Start);
    assert_eq!(DateField::End.issue(), ParseIssue::End);
}

#[test]
fn errors_have_their_sentences() {
    assert_eq!(NormalizeError::Parse(ParseIssue::Start).message(), "Couldn't parse start time");
    assert_eq!(NormalizeError::Parse(ParseIssue::End).message(), "Couldn't parse end time");
    assert_eq!(
        NormalizeError::Parse(ParseIssue::EndPrecedesStart).message(),
        "End time precedes start time"
    );
    assert_eq!(
        NormalizeError::Zone(DateField::Start).message(),
        "Start time does not exist in the time zone"
    );
    assert_eq!(
        NormalizeError::Zone(DateField::End).message(),
        "End time does not exist in the time zone"
    );
}

#[test]
fn a_draft_ends_after_it_starts() {
    let d = draft("2024-06-01 12:00".to_string(), None).unwrap();
    assert_eq!(d.end.utc_seconds - d.start.utc_seconds, 3600);
    let d = draft("2024-06-01 12:00".to_string(), Some("2024-06-01 12:01".to_string())).unwrap();
    assert_eq!(d.end.utc_seconds - d.start.utc_seconds, 60);
    assert_eq!(
        draft("2024-06-01 12:00".to_string(), Some("2024-06-01 12:00".to_string())),
        Err(NormalizeError::Parse(ParseIssue::EndPrecedesStart))
    );
    assert_eq!(
        draft("2024-06-01 12:00".to_string(), Some("2024-06-01 11:59".to_string())),
        Err(NormalizeError::Parse(ParseIssue::EndPrecedesStart))
    );
    assert_eq!(
        draft("2024-06-01 12:00".to_string(), Some("soon".to_string())),
        Err(NormalizeError::Parse(ParseIssue::End))
    );
    assert_eq!(
        draft("2024-03-31 02:30".to_string(), None),
        Err(NormalizeError::Zone(DateField::Start))
    );
}

#[test]
fn a_draft_of_two_instants_checks_their_order() {
    let a = ZonedInstant { utc_seconds: 10, offset_seconds: 3600 };
    let b = ZonedInstant { utc_seconds: 11, offset_seconds: 7200 };
    assert_eq!(EventDraft::new(a, b), Ok(EventDraft { start: a, end: b }));
    assert_eq!(EventDraft::new(b, a), Err(NormalizeError::Parse(ParseIssue::EndPrecedesStart)));
    assert_eq!(EventDraft::new(a, a), Err(NormalizeError::Parse(ParseIssue::EndPrecedesStart)));
}
