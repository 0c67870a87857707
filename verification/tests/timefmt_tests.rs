use chrono::Datelike;
use chrono::Timelike;
use relay_core::timefmt::Timestamp;
use relay_core::timefmt::format_rfc3339;
use relay_core::timefmt::parse_rfc3339;

fn make(
    year: u16,
    month: u8,
    day: u8,
    hour: u8,
    minute: u8,
    second: u8,
    offset_minutes: i16,
) -> Timestamp {
    Timestamp { year, month, day, hour, minute, second, offset_minutes }
}

#[test]
fn formats_zero_offset_as_z() {
    let t = make(2024, 5, 17, 14, 3, 9, 0);
    assert_eq!(format_rfc3339(&t).as_str(), "2024-05-17T14:03:09Z");
}

#[test]
fn formats_positive_offset() {
    let t = make(2024, 12, 31, 23, 59, 59, 330);
    assert_eq!(format_rfc3339(&t).as_str(), "2024-12-31T23:59:59+05:30");
}

#[test]
fn formats_negative_offset() {
    let t = make(2001, 1, 2, 3, 4, 5, -300);
    assert_eq!(format_rfc3339(&t).as_str(), "2001-01-02T03:04:05-05:00");
}

#[test]
fn parse_reads_back_what_format_wrote() {
    let samples = [
        make(2024, 5, 17, 14, 3, 9, 0),
        make(2024, 2, 29, 0, 0, 0, 0),
        make(1999, 12, 31, 23, 59, 59, 345),
        make(2030, 6, 15, 6, 30, 0, -720),
        make(0, 1, 1, 0, 0, 0, -1439),
        make(9999, 12, 31, 23, 59, 59, 1439),
    ];
    for t in samples {
        assert_eq!(parse_rfc3339(format_rfc3339(&t).as_str()), Some(t));
    }
}

#[test]
fn parse_accepts_explicit_zero_offset() {
    let t = parse_rfc3339("2024-05-17T14:03:09+00:00").unwrap();
    assert_eq!(t, make(2024, 5, 17, 14, 3, 9, 0));
}

#[test]
fn parse_rejects_malformed_text() {
    assert_eq!(parse_rfc3339(""), None);
    assert_eq!(parse_rfc3339("2024-05-17 14:03:09Z"), None);
    assert_eq!(parse_rfc3339("2024-05-17T14:03:09"), None);
    assert_eq!(parse_rfc3339("2024-05-17T14:03:09+0500"), None);
    assert_eq!(parse_rfc3339("2024-13-01T00:00:00Z"), None);
    assert_eq!(parse_rfc3339("2023-02-29T00:00:00Z"), None);
    assert_eq!(parse_rfc3339("2024-05-17T24:00:00Z"), None);
    assert_eq!(parse_rfc3339("2024-05-17T14:03:09+05:60"), None);
    assert_eq!(parse_rfc3339("2024-05-17T14:03:09!05:00"), None);
    assert_eq!(parse_rfc3339("20x4-05-17T14:03:09Z"), None);
}

#[test]
fn leap_year_rules_decide_february() {
    assert!(Timestamp::new(2024, 2, 29, 0, 0, 0, 0).is_some());
    assert!(Timestamp::new(2023, 2, 29, 0, 0, 0, 0).is_none());
    assert!(Timestamp::new(2000, 2, 29, 0, 0, 0, 0).is_some());
    assert!(Timestamp::new(1900, 2, 29, 0, 0, 0, 0).is_none());
}

#[test]
fn construction_rejects_out_of_range_fields() {
    assert!(Timestamp::new(2024, 0, 1, 0, 0, 0, 0).is_none());
    assert!(Timestamp::new(2024, 1, 32, 0, 0, 0, 0).is_none());
    assert!(Timestamp::new(2024, 4, 31, 0, 0, 0, 0).is_none());
    assert!(Timestamp::new(2024, 1, 1, 24, 0, 0, 0).is_none());
    assert!(Timestamp::new(2024, 1, 1, 0, 60, 0, 0).is_none());
    assert!(Timestamp::new(2024, 1, 1, 0, 0, 60, 0).is_none());
    assert!(Timestamp::new(2024, 1, 1, 0, 0, 0, 1440).is_none());
    assert!(Timestamp::new(2024, 1, 1, 0, 0, 0, -1440).is_none());
    assert!(Timestamp::new(10000, 1, 1, 0, 0, 0, 0).is_none());
}

#[test]
fn format_agrees_with_chrono_rfc3339_seconds() {
    let offset = chrono::FixedOffset::east_opt(-300 * 60).unwrap();
    let dt = chrono::DateTime::parse_from_rfc3339("2024-05-17T14:03:09-05:00").unwrap();
    assert_eq!(dt.offset(), &offset);
    let ours = make(2024, 5, 17, 14, 3, 9, -300);
    let theirs = dt.to_rfc3339_opts(chrono::SecondsFormat::Secs, true);
    assert_eq!(format_rfc3339(&ours), theirs);
}

#[test]
fn chrono_reads_back_the_same_instant() {
    let ours = make(2024, 5, 17, 14, 3, 9, 330);
    let text = format_rfc3339(&ours);
    let dt = chrono::DateTime::parse_from_rfc3339(text.as_str()).unwrap();
    assert_eq!(dt.year(), 2024);
    assert_eq!(dt.month(), 5);
    assert_eq!(dt.day(), 17);
    assert_eq!(dt.hour(), 14);
    assert_eq!(dt.minute(), 3);
    assert_eq!(dt.second(), 9);
    assert_eq!(dt.offset().local_minus_utc(), 330 * 60);
}
