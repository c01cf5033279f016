use codexbar::providers::codex::credentials::parse_timestamp;
use codexbar::providers::codex::response::timestamp_to_datetime;
use codexbar::timestamp::{seconds_between, Timestamp};

#[test]
fn calendar_bounds_are_those_of_the_calendar() {
    for secs in [
        -8_334_601_228_801,
        -8_334_601_228_800,
        0,
        1_783_036_800,
        8_210_266_876_799,
        8_210_266_876_800,
        i64::MIN,
        i64::MAX,
    ] {
        let expected = chrono::DateTime::from_timestamp(secs, 0)
            .map(|t| Timestamp { secs: t.timestamp(), nanos: t.timestamp_subsec_nanos() });
        assert_eq!(timestamp_to_datetime(Some(secs)), expected, "{secs}");
    }
    assert_eq!(timestamp_to_datetime(None), None);
}

#[test]
fn seconds_are_rounded_toward_zero() {
    let a = Timestamp { secs: 10, nanos: 900_000_000 };
    let b = Timestamp { secs: 12, nanos: 100_000_000 };
    assert_eq!(seconds_between(b, a), 1);
    assert_eq!(seconds_between(a, b), -1);
    assert!(a.is_before(b));
    assert!(!b.is_before(a));
    assert!(!a.is_before(a));
}

#[test]
fn parse_timestamp_reads_iso8601() {
    assert!(parse_timestamp("2026-08-17T10:00:00Z").is_some());
    assert!(parse_timestamp("2026-08-17T10:00:00.123Z").is_some());
    assert!(parse_timestamp("  2026-08-17T10:00:00Z  ").is_some());
    assert!(parse_timestamp("").is_none());
    assert!(parse_timestamp("not-a-date").is_none());
}

#[test]
fn times_without_an_offset_are_universal() {
    assert_eq!(
        parse_timestamp("2026-08-17T10:00:00.5"),
        Some(Timestamp { secs: 1_786_960_800, nanos: 500_000_000 })
    );
    assert_eq!(
        parse_timestamp("2026-08-17T12:00:00+02:00"),
        Some(Timestamp { secs: 1_786_960_800, nanos: 0 })
    );
}
