use tracing_rolling::calendar::Timestamp;

#[test]
fn a_day_has_86400_seconds() {
    let first = Timestamp::new(2023, 3, 23, 0, 0, 0).unwrap();
    let second = Timestamp::new(2023, 3, 24, 0, 0, 0).unwrap();
    assert_eq!(second.seconds_since(&first), 86400);
    assert_eq!(first.seconds_since(&second), -86400);
}

#[test]
fn dates_that_do_not_exist_are_refused() {
    assert!(Timestamp::new(2023, 2, 29, 0, 0, 0).is_none());
    assert!(Timestamp::new(2024, 2, 29, 0, 0, 0).is_some());
    assert!(Timestamp::new(1900, 2, 29, 0, 0, 0).is_none());
    assert!(Timestamp::new(2000, 2, 29, 0, 0, 0).is_some());
    assert!(Timestamp::new(2023, 4, 31, 0, 0, 0).is_none());
    assert!(Timestamp::new(2023, 13, 1, 0, 0, 0).is_none());
    assert!(Timestamp::new(2023, 1, 0, 0, 0, 0).is_none());
    assert!(Timestamp::new(10000, 1, 1, 0, 0, 0).is_none());
    assert!(Timestamp::new(-1, 1, 1, 0, 0, 0).is_none());
    assert!(Timestamp::new(2023, 1, 1, 24, 0, 0).is_none());
    assert!(Timestamp::new(2023, 1, 1, 0, 60, 0).is_none());
    assert!(Timestamp::new(2023, 1, 1, 0, 0, 60).is_none());
}

#[test]
fn the_clock_shows_no_moment_at_an_offset_that_does_not_exist() {
    assert!(Timestamp::now_at(0).is_some());
    assert!(Timestamp::now_at(93_599).is_some());
    assert!(Timestamp::now_at(-93_599).is_some());
    assert!(Timestamp::now_at(93_600).is_none());
    assert!(Timestamp::now_at(i32::MIN).is_none());
}

#[test]
fn seconds_are_counted_across_months_and_years() {
    let before = Timestamp::new(2023, 12, 31, 23, 59, 59).unwrap();
    let after = Timestamp::new(2024, 1, 1, 0, 0, 0).unwrap();
    assert_eq!(after.seconds_since(&before), 1);
    let leap = Timestamp::new(2024, 3, 1, 0, 0, 0).unwrap();
    let eve = Timestamp::new(2024, 2, 28, 0, 0, 0).unwrap();
    assert_eq!(leap.seconds_since(&eve), 2 * 86400);
    let first = Timestamp::new(0, 1, 1, 0, 0, 0).unwrap();
    let last = Timestamp::new(9999, 12, 31, 23, 59, 59).unwrap();
    assert_eq!(last.seconds_since(&first), 3_652_425 * 86400 - 1);
    assert_eq!(first.seconds_since(&first), 0);
}
