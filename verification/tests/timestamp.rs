use glcim::timestamp::{Timestamp, FIRST_SECOND, LAST_SECOND};

#[test]
fn parts_of_a_timestamp() {
    let t = Timestamp::new(1_600_000_000, 5, 7200).unwrap();
    assert_eq!((t.secs(), t.nanos(), t.offset()), (1_600_000_000, 5, 7200));
}

#[test]
fn impossible_timestamps() {
    assert!(Timestamp::new(FIRST_SECOND, 0, 0).is_some());
    assert!(Timestamp::new(FIRST_SECOND - 1, 0, 0).is_none());
    assert!(Timestamp::new(LAST_SECOND, 999_999_999, 0).is_some());
    assert!(Timestamp::new(LAST_SECOND + 1, 0, 0).is_none());
    assert!(Timestamp::new(0, 0, 86_400).is_none());
    assert!(Timestamp::new(0, 0, -86_400).is_none());
    assert!(Timestamp::new(0, 2_000_000_000, 0).is_none());
    assert!(Timestamp::new(0, 1_000_000_000, 0).is_none());
    assert!(Timestamp::new(59, 1_000_000_000, 0).is_some());
    assert!(Timestamp::new(-1, 1_000_000_000, 0).is_some());
}

#[test]
fn text_of_a_timestamp() {
    let t = Timestamp::new(0, 0, 0).unwrap();
    assert_eq!(t.text(), "1970-01-01 00:00:00 +00:00");
    let t = Timestamp::new(1_600_000_000, 120_000_000, 7200).unwrap();
    assert_eq!(t.text(), "2020-09-13 14:26:40.120 +02:00");
}

#[test]
fn text_at_the_ends_of_time() {
    for offset in [-86_399, 0, 86_399] {
        assert!(!Timestamp::new(FIRST_SECOND, 0, offset).unwrap().text().is_empty());
        assert!(!Timestamp::new(LAST_SECOND, 999_999_999, offset).unwrap().text().is_empty());
    }
}

#[test]
fn seconds_are_rounded_towards_zero() {
    let a = Timestamp::new(100, 500_000_000, 0).unwrap();
    let b = Timestamp::new(103, 400_000_000, 3600).unwrap();
    assert_eq!(a.seconds_until(&b), 2);
    assert_eq!(b.seconds_until(&a), -2);
    assert_eq!(a.seconds_until(&a), 0);
}

#[test]
fn seconds_across_days() {
    let a = Timestamp::new(86_399, 0, 0).unwrap();
    let b = Timestamp::new(3 * 86_400 + 1, 0, 0).unwrap();
    assert_eq!(a.seconds_until(&b), 2 * 86_400 + 2);
    let first = Timestamp::new(FIRST_SECOND, 0, 0).unwrap();
    let last = Timestamp::new(LAST_SECOND, 0, 0).unwrap();
    assert_eq!(first.seconds_until(&last), LAST_SECOND - FIRST_SECOND);
}

#[test]
fn leap_seconds_between_timestamps() {
    let leap = Timestamp::new(59, 1_500_000_000, 0).unwrap();
    let after = Timestamp::new(60, 500_000_000, 0).unwrap();
    assert_eq!(leap.seconds_until(&after), 1);
    assert_eq!(after.seconds_until(&leap), -1);
    let next_day = Timestamp::new(86_400 + 10, 0, 0).unwrap();
    assert_eq!(leap.seconds_until(&next_day), 86_349);
}
