use social_cli::clock::{leap_year, month_length, utc_timestamp, year_length, Timestamp};

fn text_of(seconds: u64) -> Option<String> {
    utc_timestamp(seconds).map(|t| t.text())
}

#[test]
fn epoch_is_the_first_of_january_1970() {
    assert_eq!(
        utc_timestamp(0),
        Some(Timestamp { year: 1970, month: 1, day: 1, hour: 0, minute: 0, second: 0 })
    );
    assert_eq!(text_of(0), Some("1970-01-01T00:00:00Z".to_string()));
}

#[test]
fn known_moments() {
    assert_eq!(text_of(59), Some("1970-01-01T00:00:59Z".to_string()));
    assert_eq!(text_of(86399), Some("1970-01-01T23:59:59Z".to_string()));
    assert_eq!(text_of(86400), Some("1970-01-02T00:00:00Z".to_string()));
    assert_eq!(text_of(951782400), Some("2000-02-29T00:00:00Z".to_string()));
    assert_eq!(text_of(951868800), Some("2000-03-01T00:00:00Z".to_string()));
    assert_eq!(text_of(1000000000), Some("2001-09-09T01:46:40Z".to_string()));
    assert_eq!(text_of(1714979289), Some("2024-05-06T07:08:09Z".to_string()));
    assert_eq!(text_of(1735689599), Some("2024-12-31T23:59:59Z".to_string()));
    assert_eq!(text_of(1735689600), Some("2025-01-01T00:00:00Z".to_string()));
    assert_eq!(text_of(4107542400), Some("2100-03-01T00:00:00Z".to_string()));
}

#[test]
fn last_moment_of_the_year_9999_is_the_limit() {
    assert_eq!(text_of(253402300799), Some("9999-12-31T23:59:59Z".to_string()));
    assert_eq!(utc_timestamp(253402300800), None);
    assert_eq!(utc_timestamp(u64::MAX), None);
}

#[test]
fn leap_years() {
    assert!(leap_year(2000));
    assert!(leap_year(2024));
    assert!(!leap_year(1900));
    assert!(!leap_year(2100));
    assert!(!leap_year(2023));
    assert_eq!(year_length(2024), 366);
    assert_eq!(year_length(2023), 365);
}

#[test]
fn month_lengths() {
    let lengths: Vec<u64> = (1..=12).map(|month| month_length(2023, month)).collect();
    assert_eq!(lengths, vec![31, 28, 31, 30, 31, 30, 31, 31, 30, 31, 30, 31]);
    assert_eq!(month_length(2024, 2), 29);
    assert_eq!(month_length(1900, 2), 28);
}

#[test]
fn text_pads_with_zeros() {
    let t = Timestamp { year: 1999, month: 1, day: 2, hour: 3, minute: 4, second: 5 };
    assert_eq!(t.text(), "1999-01-02T03:04:05Z");
}

#[test]
fn days_follow_each_other() {
    let mut previous = utc_timestamp(0).unwrap();
    for day in 1..20000u64 {
        let t = utc_timestamp(day * 86400).unwrap();
        let next_day = t.year == previous.year && t.month == previous.month && t.day == previous.day + 1;
        let next_month = t.year == previous.year
            && t.month == previous.month + 1
            && t.day == 1
            && previous.day == month_length(previous.year, previous.month);
        let next_year = t.year == previous.year + 1
            && t.month == 1
            && t.day == 1
            && previous.month == 12
            && previous.day == 31;
        assert!(next_day || next_month || next_year, "day {}", day);
        previous = t;
    }
}
