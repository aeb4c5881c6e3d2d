use chrono::NaiveDate;
use meetup_events::civil::{
    leap_year, month_length, CivilDateTime, EPOCH_DAY, FIRST_SECOND, LAST_SECOND, MAX_YEAR,
    MIN_YEAR,
};

fn civil(year: i32, month: u32, day: u32, hour: u32, minute: u32) -> CivilDateTime {
    CivilDateTime::new(year, month, day, hour, minute).unwrap()
}

#[test]
fn leap_years_follow_the_gregorian_rule() {
    assert!(leap_year(2024));
    assert!(leap_year(2000));
    assert!(leap_year(0));
    assert!(leap_year(1600));
    assert!(!leap_year(1900));
    assert!(!leap_year(2100));
    assert!(!leap_year(2023));
    assert!(!leap_year(1));
}

#[test]
fn months_have_their_lengths() {
    let common = [31, 28, 31, 30, 31, 30, 31, 31, 30, 31, 30, 31];
    for month in 1..=12u32 {
        assert_eq!(month_length(2023, month), common[(month - 1) as usize]);
        let leap = if month == 2 { 29 } else { common[(month - 1) as usize] };
        assert_eq!(month_length(2024, month), leap);
    }
}

#[test]
fn civil_values_are_built_only_from_existing_minutes() {
    assert_eq!(
        CivilDateTime::new(2024, 2, 29, 23, 59),
        Some(CivilDateTime { year: 2024, month: 2, day: 29, hour: 23, minute: 59 })
    );
    assert_eq!(CivilDateTime::new(2023, 2, 29, 0, 0), None);
    assert_eq!(CivilDateTime::new(-1, 1, 1, 0, 0), None);
    assert_eq!(CivilDateTime::new(10000, 1, 1, 0, 0), None);
    assert_eq!(CivilDateTime::new(2024, 0, 1, 0, 0), None);
    assert_eq!(CivilDateTime::new(2024, 13, 1, 0, 0), None);
    assert_eq!(CivilDateTime::new(2024, 1, 0, 0, 0), None);
    assert_eq!(CivilDateTime::new(2024, 1, 32, 0, 0), None);
    assert_eq!(CivilDateTime::new(2024, 1, 1, 24, 0), None);
    assert_eq!(CivilDateTime::new(2024, 1, 1, 0, 60), None);
    assert!(CivilDateTime::new(MIN_YEAR, 1, 1, 0, 0).is_some());
    assert!(CivilDateTime::new(MAX_YEAR, 12, 31, 23, 59).is_some());
}

#[test]
fn seconds_are_counted_from_the_epoch() {
    assert_eq!(civil(1970, 1, 1, 0, 0).epoch_seconds(), 0);
    assert_eq!(civil(1970, 1, 1, 0, 1).epoch_seconds(), 60);
    assert_eq!(civil(1970, 1, 2, 0, 0).epoch_seconds(), 86_400);
    assert_eq!(civil(1969, 12, 31, 23, 59).epoch_seconds(), -60);
    assert_eq!(civil(2024, 6, 1, 10, 0).epoch_seconds(), 1_717_236_000);
    assert_eq!(civil(2024, 2, 29, 0, 0).epoch_seconds(), 1_709_164_800);
    assert_eq!(civil(2012, 12, 31, 11, 34).epoch_seconds(), 1_356_953_640);
    assert_eq!(civil(1, 1, 1, 0, 0).epoch_seconds(), -62_135_596_800);
    assert_eq!(civil(0, 1, 1, 0, 0).epoch_seconds(), FIRST_SECOND);
    assert_eq!(civil(9999, 12, 31, 23, 59).epoch_seconds(), LAST_SECOND - 59);
    assert_eq!(EPOCH_DAY, 719_528);
}

#[test]
fn seconds_agree_with_chrono_on_every_day_of_many_years() {
    let years = [0, 1, 4, 99, 100, 400, 1582, 1899, 1900, 1969, 1970, 1999, 2000, 2023, 2024, 2100, 9998, 9999];
    for year in years {
        for month in 1..=12u32 {
            for day in 1..=month_length(year, month) {
                let ours = civil(year, month, day, 13, 37).epoch_seconds();
                let theirs = NaiveDate::from_ymd_opt(year, month, day)
                    .unwrap()
                    .and_hms_opt(13, 37, 0)
                    .unwrap()
                    .and_utc()
                    .timestamp();
                assert_eq!(ours, theirs, "{}-{}-{}", year, month, day);
            }
            assert!(NaiveDate::from_ymd_opt(year, month, month_length(year, month) + 1).is_none());
        }
    }
}

#[test]
fn seconds_agree_with_chrono_on_every_minute_of_a_day() {
    for hour in 0..24u32 {
        for minute in 0..60u32 {
            let ours = civil(2024, 10, 27, hour, minute).epoch_seconds();
            let theirs = NaiveDate::from_ymd_opt(2024, 10, 27)
                .unwrap()
                .and_hms_opt(hour, minute, 0)
                .unwrap()
                .and_utc()
                .timestamp();
            assert_eq!(ours, theirs);
        }
    }
}
