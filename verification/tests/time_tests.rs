use okc::time::Timestamp;
use std::cmp::Ordering;
use okc::time::RELEASE_CUTOFF_SECS;

#[test]
fn parse_reads_the_release_cutoff() {
    let read = Timestamp::parse("2012-03-29T22:00:00Z");
    assert_eq!(read, Some(Timestamp { secs: RELEASE_CUTOFF_SECS, nanos: 0 }));
    assert_eq!(RELEASE_CUTOFF_SECS, 1_333_058_400);
}

#[test]
fn parse_reads_an_offset_written_with_a_colon() {
    let read = Timestamp::parse("2017-06-02T13:50:27+00:00");
    assert_eq!(read, Some(Timestamp { secs: 1_496_411_427, nanos: 0 }));
}

#[test]
fn parse_takes_the_offset_into_account() {
    let utc = Timestamp::parse("2023-03-14T12:00:00Z").unwrap();
    let east = Timestamp::parse("2023-03-14T14:00:00+02:00").unwrap();
    assert_eq!(utc, east);
    assert_eq!(utc.secs, 1_678_795_200);
}

#[test]
fn parse_keeps_the_nanoseconds() {
    let read = Timestamp::parse("1970-01-01T00:00:01.5Z");
    assert_eq!(read, Some(Timestamp { secs: 1, nanos: 500_000_000 }));
}

#[test]
fn parse_reads_before_the_epoch() {
    let read = Timestamp::parse("1969-12-31T23:59:59Z");
    assert_eq!(read, Some(Timestamp { secs: -1, nanos: 0 }));
}

#[test]
fn parse_refuses_what_is_no_instant() {
    assert_eq!(Timestamp::parse(""), None);
    assert_eq!(Timestamp::parse("yesterday"), None);
    assert_eq!(Timestamp::parse("2023-02-30T00:00:00Z"), None);
    assert_eq!(Timestamp::parse("2023-03-14"), None);
}

#[test]
fn to_text_writes_date_time_and_zone() {
    let instant = Timestamp { secs: 1_678_795_200, nanos: 0 };
    assert_eq!(instant.to_text(), Some("2023-03-14 12:00:00 UTC".to_string()));
}

#[test]
fn to_text_writes_the_fraction() {
    let instant = Timestamp { secs: 1, nanos: 500_000_000 };
    assert_eq!(instant.to_text(), Some("1970-01-01 00:00:01.500 UTC".to_string()));
}

#[test]
fn to_text_has_no_text_for_an_instant_out_of_range() {
    assert_eq!(Timestamp { secs: i64::MAX, nanos: 0 }.to_text(), None);
    assert_eq!(Timestamp { secs: i64::MIN, nanos: 0 }.to_text(), None);
    assert_eq!(Timestamp { secs: 0, nanos: 2_000_000_000 }.to_text(), None);
}

#[test]
fn text_of_an_instant_reads_back_as_the_instant() {
    let instants = [
        Timestamp { secs: 0, nanos: 0 },
        Timestamp { secs: RELEASE_CUTOFF_SECS, nanos: 0 },
        Timestamp { secs: 1_496_411_427, nanos: 0 },
        Timestamp { secs: 1_678_795_200, nanos: 123_456_789 },
        Timestamp { secs: -86_400, nanos: 1 },
    ];
    for instant in instants {
        let text = instant.to_text().unwrap();
        assert_eq!(Timestamp::parse(&text), Some(instant));
    }
}

#[test]
fn a_leap_second_reads_back_too() {
    let leap = Timestamp { secs: 1_483_228_799, nanos: 1_500_000_000 };
    let text = leap.to_text().unwrap();
    assert_eq!(text, "2016-12-31 23:59:60.500 UTC");
    assert_eq!(Timestamp::parse(&text), Some(leap));
}

#[test]
fn instants_are_ordered_by_seconds_then_nanoseconds() {
    let a = Timestamp { secs: 10, nanos: 999_999_999 };
    let b = Timestamp { secs: 11, nanos: 0 };
    let c = Timestamp { secs: 11, nanos: 1 };
    assert!(a.before(&b));
    assert!(b.before(&c));
    assert!(a.before(&c));
    assert!(!b.before(&a));
    assert!(!a.before(&a));
    assert!(a < b && b < c && a < c);
    assert!(c > a);
    assert!(a <= a && a >= a);
    assert!(b.at_or_after(&a));
    assert!(a.at_or_after(&a));
    assert!(!a.at_or_after(&b));
}

#[test]
fn negative_seconds_come_first() {
    let a = Timestamp { secs: -5, nanos: 900 };
    let b = Timestamp { secs: 0, nanos: 0 };
    assert!(a.before(&b));
    assert!(a < b);
}

#[test]
fn from_secs_starts_the_second() {
    assert_eq!(Timestamp::from_secs(42), Timestamp { secs: 42, nanos: 0 });
}

#[test]
fn partial_cmp_agrees_with_before() {
    let a = Timestamp { secs: 1, nanos: 2 };
    let b = Timestamp { secs: 1, nanos: 3 };
    assert_eq!(a.partial_cmp(&b), Some(Ordering::Less));
    assert_eq!(b.partial_cmp(&a), Some(Ordering::Greater));
    assert_eq!(a.partial_cmp(&a), Some(Ordering::Equal));
}
