use tracing_rolling::calendar::Timestamp;
use tracing_rolling::policy::{ConfigError, Granularity, PeriodError, RotationPolicy};
use tracing_rolling::template::{Field, Item, ParseError, PathTemplate, TemplateError};
use tracing_rolling::{Daily, Hourly, Minute, Period};

fn moment(year: i32, month: u8, day: u8, hour: u8, minute: u8, second: u8) -> Timestamp {
    Timestamp::new(year, month, day, hour, minute, second).unwrap()
}

#[test]
fn a_daily_file_is_named_after_the_day() {
    let mut daily = Daily::new(b"logs/app.log", None, None).unwrap();
    let path = daily.open_new(&moment(2023, 3, 23, 23, 59, 59));
    assert_eq!(path, b"logs/app-2023-03-23.log".to_vec());
    assert_eq!(daily.previous_dt(), Ok(moment(2023, 3, 23, 0, 0, 0)));
}

#[test]
fn a_daily_file_takes_a_pattern() {
    let mut daily = Daily::new(b"logs/testing.log", Some(b"[year][month][day]"), Some(8 * 3600))
        .unwrap();
    let path = daily.open_new(&moment(2023, 3, 23, 1, 2, 3));
    assert_eq!(path, b"logs/testing-20230323.log".to_vec());
    assert_eq!(daily.previous_dt(), Ok(moment(2023, 3, 23, 0, 0, 0)));
}

#[test]
fn an_hourly_file_is_named_after_the_hour() {
    let mut hourly = Hourly::new(b"logs/app.log", None).unwrap();
    let path = hourly.open_new(&moment(2023, 3, 23, 5, 59, 59));
    assert_eq!(path, b"logs/app-2023-03-23-05.log".to_vec());
    assert_eq!(hourly.previous_dt(), Ok(moment(2023, 3, 23, 5, 0, 0)));
}

#[test]
fn a_minute_file_is_named_after_the_minute() {
    let mut minute = Minute::new(b"logs/app.log", None).unwrap();
    let path = minute.open_new(&moment(2023, 3, 23, 5, 7, 59));
    assert_eq!(path, b"logs/app-2023-03-23-05-07.log".to_vec());
    assert_eq!(minute.previous_dt(), Ok(moment(2023, 3, 23, 5, 7, 0)));
}

#[test]
fn the_durations_are_a_minute_an_hour_and_a_day() {
    assert_eq!(Minute::DURATION, 60);
    assert_eq!(Hourly::DURATION, 3600);
    assert_eq!(Daily::DURATION, 86400);
    assert_eq!(Minute::new(b"a.log", None).unwrap().duration(), 60);
    assert_eq!(Hourly::new(b"a.log", None).unwrap().duration(), 3600);
    assert_eq!(Daily::new(b"a.log", None, None).unwrap().duration(), 86400);
    for (granularity, seconds) in
        [(Granularity::Minute, 60), (Granularity::Hour, 3600), (Granularity::Day, 86400)]
    {
        let policy = RotationPolicy::new(granularity, b"a.log", None, None).unwrap();
        assert_eq!(policy.duration_threshold(), seconds);
    }
}

#[test]
fn nothing_is_due_before_a_file_was_opened() {
    let policy = RotationPolicy::new(Granularity::Day, b"logs/app.log", None, None).unwrap();
    assert_eq!(policy.active_path(), None);
    assert_eq!(policy.previous_dt(), Err(PeriodError::NoActiveFile));
    assert!(!policy.should_rotate(&moment(2023, 3, 23, 0, 0, 0)));
    assert!(!policy.should_rotate(&moment(9999, 12, 31, 23, 59, 59)));
}

#[test]
fn a_file_is_not_due_when_it_was_just_opened() {
    for granularity in [Granularity::Minute, Granularity::Hour, Granularity::Day] {
        let mut policy = RotationPolicy::new(granularity, b"logs/app.log", None, None).unwrap();
        let now = moment(2023, 3, 23, 23, 59, 59);
        policy.open_new(&now);
        assert!(!policy.should_rotate(&now));
    }
}

#[test]
fn a_daily_file_is_due_at_midnight() {
    let mut policy = RotationPolicy::new(Granularity::Day, b"logs/app.log", None, None).unwrap();
    policy.open_new(&moment(2023, 3, 23, 12, 0, 0));
    assert_eq!(policy.active_path(), Some(&b"logs/app-2023-03-23.log"[..]));
    assert!(!policy.should_rotate(&moment(2023, 3, 23, 23, 59, 59)));
    assert!(policy.should_rotate(&moment(2023, 3, 24, 0, 0, 0)));
    assert!(policy.should_rotate(&moment(2023, 3, 24, 12, 0, 0)));
    assert!(policy.should_rotate(&moment(2024, 1, 1, 0, 0, 0)));
}

#[test]
fn an_hourly_file_is_due_on_the_hour() {
    let mut policy = RotationPolicy::new(Granularity::Hour, b"logs/app.log", None, None).unwrap();
    policy.open_new(&moment(2023, 12, 31, 23, 30, 0));
    assert!(!policy.should_rotate(&moment(2023, 12, 31, 23, 59, 59)));
    assert!(policy.should_rotate(&moment(2024, 1, 1, 0, 0, 0)));
}

#[test]
fn a_minute_file_is_due_on_the_minute() {
    let mut policy = RotationPolicy::new(Granularity::Minute, b"logs/app.log", None, None)
        .unwrap();
    policy.open_new(&moment(2024, 2, 28, 23, 59, 30));
    assert!(!policy.should_rotate(&moment(2024, 2, 28, 23, 59, 59)));
    assert!(policy.should_rotate(&moment(2024, 2, 29, 0, 0, 0)));
}

#[test]
fn a_file_is_due_once_the_threshold_has_passed() {
    let mut policy = RotationPolicy::new(Granularity::Day, b"logs/app.log", None, None).unwrap();
    policy.open_new(&moment(2023, 3, 23, 23, 59, 59));
    assert!(policy.should_rotate(&moment(2023, 3, 24, 23, 59, 59)));
    assert!(policy.should_rotate(&moment(2023, 3, 25, 0, 0, 0)));
}

#[test]
fn a_clock_that_goes_back_makes_nothing_due() {
    let mut policy = RotationPolicy::new(Granularity::Hour, b"logs/app.log", None, None).unwrap();
    policy.open_new(&moment(2023, 3, 23, 12, 0, 0));
    assert!(!policy.should_rotate(&moment(2023, 3, 23, 11, 0, 0)));
    assert!(!policy.should_rotate(&moment(2020, 1, 1, 0, 0, 0)));
}

#[test]
fn an_offset_beyond_the_range_is_refused() {
    assert!(matches!(
        RotationPolicy::new(Granularity::Day, b"a.log", None, Some(93_600)),
        Err(ConfigError::Offset)
    ));
    assert!(matches!(
        RotationPolicy::new(Granularity::Day, b"a.log", None, Some(-93_600)),
        Err(ConfigError::Offset)
    ));
    assert!(RotationPolicy::new(Granularity::Day, b"a.log", None, Some(93_599)).is_ok());
    assert!(RotationPolicy::new(Granularity::Day, b"a.log", None, Some(-93_599)).is_ok());
    assert!(matches!(Hourly::new(b"a.log", Some(i32::MIN)), Err(ConfigError::Offset)));
}

#[test]
fn a_pattern_that_is_no_description_is_refused() {
    assert!(matches!(
        Daily::new(b"a.log", Some(b"[year"), None),
        Err(ConfigError::Template(TemplateError::Invalid))
    ));
    assert!(matches!(
        Daily::new(b"a.log", Some(b"[year]-[month]-[day]-[second]"), None),
        Err(ConfigError::Template(TemplateError::Unsupported))
    ));
    assert!(matches!(
        Hourly::new(b"logs/[nothing]/a.log", None),
        Err(ConfigError::Template(TemplateError::Invalid))
    ));
}

#[test]
fn a_daily_pattern_needs_year_month_and_day_once() {
    assert!(matches!(
        Daily::new(b"a.log", Some(b"[month]-[day]"), None),
        Err(ConfigError::Field(Field::Year))
    ));
    assert!(matches!(
        Daily::new(b"a.log", Some(b"[year]-[day]"), None),
        Err(ConfigError::Field(Field::Month))
    ));
    assert!(matches!(
        Daily::new(b"a.log", Some(b"[year]-[month]"), None),
        Err(ConfigError::Field(Field::Day))
    ));
    assert!(matches!(
        Daily::new(b"a.log", Some(b"[year]-[month]-[day]-[year]"), None),
        Err(ConfigError::Field(Field::Year))
    ));
    assert!(matches!(
        Daily::new(b"a.log", Some(b"[year]-[month]-[day]-[year]-[year]"), None),
        Err(ConfigError::Field(Field::Year))
    ));
    assert!(matches!(
        Daily::new(b"a.log", Some(b"[day][day][month][month][year]"), None),
        Err(ConfigError::Field(Field::Month))
    ));
    assert!(Daily::new(b"a.log", Some(b"[day].[month].[year]"), None).is_ok());
    assert!(Daily::new(b"a.log", Some(b"[year][month][day]T[hour][hour]"), None).is_ok());
}

#[test]
fn fields_in_the_path_count_too() {
    assert!(matches!(
        Hourly::new(b"logs/[year]/app.log", None),
        Err(ConfigError::Field(Field::Year))
    ));
    assert!(matches!(
        Minute::new(b"logs/[minute]/app.log", None),
        Err(ConfigError::Field(Field::Minute))
    ));
    assert!(Daily::new(b"logs/[hour]/app.log", None, None).is_ok());
}

#[test]
fn ensure_year_month_day_names_the_first_field_at_fault() {
    let good = PathTemplate::compile(b"[year]-[month]-[day]").unwrap();
    assert_eq!(Daily::ensure_year_month_day(good.items()), Ok(()));
    let twice = PathTemplate::compile(b"[year]-[month]-[day]-[day]-[month]").unwrap();
    assert_eq!(Daily::ensure_year_month_day(twice.items()), Err(ConfigError::Field(Field::Month)));
    let none = [Item::Literal(b"plain".to_vec())];
    assert_eq!(Daily::ensure_year_month_day(&none), Err(ConfigError::Field(Field::Year)));
    let made = [Item::Field(Field::Day), Item::Field(Field::Month), Item::Field(Field::Year)];
    assert_eq!(Daily::ensure_year_month_day(&made), Ok(()));
    assert_eq!(Daily::ensure_year_month_day(&[]), Err(ConfigError::Field(Field::Year)));
}

#[test]
fn the_start_of_a_period_needs_the_fields_of_the_granularity() {
    let found =
        tracing_rolling::Extracted { year: 2023, month: 3, day: 23, hour: None, minute: None };
    assert_eq!(Granularity::Day.start_of(&found), Ok(moment(2023, 3, 23, 0, 0, 0)));
    assert_eq!(Granularity::Hour.start_of(&found), Err(ParseError::Missing(Field::Hour)));
    assert_eq!(Granularity::Minute.start_of(&found), Err(ParseError::Missing(Field::Hour)));
    let hour = tracing_rolling::Extracted { hour: Some(7), ..found };
    assert_eq!(Granularity::Hour.start_of(&hour), Ok(moment(2023, 3, 23, 7, 0, 0)));
    assert_eq!(Granularity::Minute.start_of(&hour), Err(ParseError::Missing(Field::Minute)));
    let minute = tracing_rolling::Extracted { minute: Some(9), ..hour };
    assert_eq!(Granularity::Minute.start_of(&minute), Ok(moment(2023, 3, 23, 7, 9, 0)));
    assert_eq!(Granularity::Day.start_of(&minute), Ok(moment(2023, 3, 23, 0, 0, 0)));
}

#[test]
fn the_clock_shows_a_moment_that_a_file_name_can_carry() {
    for offset in [None, Some(0), Some(8 * 3600), Some(-93_599), Some(93_599)] {
        let mut daily = Daily::new(b"logs/app.log", None, offset).unwrap();
        let now = daily.now().unwrap();
        assert!(Timestamp::new(now.year, now.month, now.day, now.hour, now.minute, now.second)
            .is_some());
        assert!(now.year >= 2024);
        let path = daily.new_path().unwrap();
        assert_eq!(path.len(), b"logs/app-2023-03-23.log".len());
        assert!(daily.previous_dt().is_ok());
    }
}

#[test]
fn the_clock_follows_the_offset() {
    let west = RotationPolicy::new(Granularity::Day, b"a.log", None, Some(-12 * 3600)).unwrap();
    let east = RotationPolicy::new(Granularity::Day, b"a.log", None, Some(12 * 3600)).unwrap();
    let before = west.now().unwrap();
    let after = east.now().unwrap();
    let apart = after.seconds_since(&before);
    assert!((24 * 3600 - 2..=24 * 3600 + 2).contains(&apart));
}
