use tracing_rolling::calendar::Timestamp;
use tracing_rolling::template::{Extracted, Field, ParseError, PathTemplate, TemplateError};

fn moment(year: i32, month: u8, day: u8, hour: u8, minute: u8, second: u8) -> Timestamp {
    Timestamp::new(year, month, day, hour, minute, second).unwrap()
}

#[test]
fn render_writes_literals_and_padded_fields() {
    let template = PathTemplate::compile(b"logs/app-[year]-[month]-[day].log").unwrap();
    let path = template.render(&moment(2023, 3, 23, 23, 59, 59));
    assert_eq!(path, b"logs/app-2023-03-23.log".to_vec());
    let early = template.render(&moment(7, 1, 2, 0, 0, 0));
    assert_eq!(early, b"logs/app-0007-01-02.log".to_vec());
}

#[test]
fn render_writes_hour_and_minute() {
    let template = PathTemplate::compile(b"a.[year][month][day]T[hour][minute]").unwrap();
    let path = template.render(&moment(1999, 12, 31, 4, 5, 6));
    assert_eq!(path, b"a.19991231T0405".to_vec());
}

#[test]
fn extract_reads_what_render_wrote() {
    let template = PathTemplate::compile(b"logs/app-[year]-[month]-[day]-[hour].log").unwrap();
    let now = moment(2024, 2, 29, 13, 37, 42);
    let path = template.render(&now);
    assert_eq!(
        template.extract(&path),
        Ok(Extracted { year: 2024, month: 2, day: 29, hour: Some(13), minute: None })
    );
}

#[test]
fn extract_reads_each_group_at_its_offset() {
    let template = PathTemplate::compile(b"x[minute]-[hour]_[day][month][year]").unwrap();
    assert_eq!(
        template.extract(b"x59-23_31122023"),
        Ok(Extracted { year: 2023, month: 12, day: 31, hour: Some(23), minute: Some(59) })
    );
}

#[test]
fn extract_refuses_another_literal() {
    let template = PathTemplate::compile(b"app-[year]-[month]-[day].log").unwrap();
    assert_eq!(template.extract(b"app-2023-03-23.txt"), Err(ParseError::Mismatch));
    assert_eq!(template.extract(b"app_2023-03-23.log"), Err(ParseError::Mismatch));
    assert_eq!(template.extract(b"app-2023-03-23.log.1"), Err(ParseError::Mismatch));
    assert_eq!(template.extract(b"app-2023-03-2"), Err(ParseError::Mismatch));
    assert_eq!(template.extract(b""), Err(ParseError::Mismatch));
}

#[test]
fn extract_refuses_a_field_that_is_no_number() {
    let template = PathTemplate::compile(b"app-[year]-[month]-[day].log").unwrap();
    assert_eq!(template.extract(b"app-20x3-03-23.log"), Err(ParseError::Field(Field::Year)));
    assert_eq!(template.extract(b"app-2023-+3-23.log"), Err(ParseError::Field(Field::Month)));
    assert_eq!(template.extract(b"app-2023-03- 3.log"), Err(ParseError::Field(Field::Day)));
}

#[test]
fn extract_refuses_a_field_out_of_range() {
    let template = PathTemplate::compile(b"[year]-[month]-[day]-[hour]-[minute]").unwrap();
    assert_eq!(template.extract(b"2023-13-01-00-00"), Err(ParseError::Field(Field::Month)));
    assert_eq!(template.extract(b"2023-00-01-00-00"), Err(ParseError::Field(Field::Month)));
    assert_eq!(template.extract(b"2023-01-32-00-00"), Err(ParseError::Field(Field::Day)));
    assert_eq!(template.extract(b"2023-01-00-00-00"), Err(ParseError::Field(Field::Day)));
    assert_eq!(template.extract(b"2023-01-01-24-00"), Err(ParseError::Field(Field::Hour)));
    assert_eq!(template.extract(b"2023-01-01-00-60"), Err(ParseError::Field(Field::Minute)));
}

#[test]
fn extract_refuses_a_date_that_does_not_exist() {
    let template = PathTemplate::compile(b"[year]-[month]-[day]").unwrap();
    assert_eq!(template.extract(b"2023-02-29"), Err(ParseError::Field(Field::Day)));
    assert_eq!(template.extract(b"2023-04-31"), Err(ParseError::Field(Field::Day)));
    assert_eq!(
        template.extract(b"2024-02-29"),
        Ok(Extracted { year: 2024, month: 2, day: 29, hour: None, minute: None })
    );
}

#[test]
fn extract_misses_a_field_that_the_template_lacks() {
    let no_year = PathTemplate::compile(b"[month]-[day]").unwrap();
    assert_eq!(no_year.extract(b"03-23"), Err(ParseError::Missing(Field::Year)));
    let no_month = PathTemplate::compile(b"[year]-[day]").unwrap();
    assert_eq!(no_month.extract(b"2023-23"), Err(ParseError::Missing(Field::Month)));
    let no_day = PathTemplate::compile(b"[year]-[month]").unwrap();
    assert_eq!(no_day.extract(b"2023-03"), Err(ParseError::Missing(Field::Day)));
}

#[test]
fn extract_keeps_the_later_of_two_readings() {
    let template = PathTemplate::compile(b"[year]/[year]-[month]-[day]").unwrap();
    assert_eq!(
        template.extract(b"1999/2023-03-23"),
        Ok(Extracted { year: 2023, month: 3, day: 23, hour: None, minute: None })
    );
}

#[test]
fn compile_refuses_what_is_no_description() {
    assert!(matches!(PathTemplate::compile(b"app-[year"), Err(TemplateError::Invalid)));
    assert!(matches!(PathTemplate::compile(b"app-[yeer]"), Err(TemplateError::Invalid)));
    assert!(matches!(PathTemplate::compile(&[b'a', 0xff, b'b']), Err(TemplateError::Invalid)));
}

#[test]
fn compile_refuses_other_components_and_modifiers() {
    assert!(matches!(PathTemplate::compile(b"[second]"), Err(TemplateError::Unsupported)));
    assert!(matches!(PathTemplate::compile(b"[weekday]"), Err(TemplateError::Unsupported)));
    assert!(matches!(
        PathTemplate::compile(b"[year repr:last_two]"),
        Err(TemplateError::Unsupported)
    ));
    assert!(matches!(
        PathTemplate::compile(b"[month repr:short]"),
        Err(TemplateError::Unsupported)
    ));
    assert!(matches!(
        PathTemplate::compile(b"[day padding:none]-[month]"),
        Err(TemplateError::Unsupported)
    ));
    assert!(matches!(
        PathTemplate::compile(b"[hour repr:12]-[day]"),
        Err(TemplateError::Unsupported)
    ));
}

#[test]
fn compile_takes_a_description_of_one_item() {
    let literal = PathTemplate::compile(b"plain.log").unwrap();
    assert_eq!(literal.count_field(Field::Year), 0);
    assert_eq!(literal.render(&moment(2023, 3, 23, 0, 0, 0)), b"plain.log".to_vec());
    let field = PathTemplate::compile(b"[year]").unwrap();
    assert_eq!(field.count_field(Field::Year), 1);
    assert_eq!(field.render(&moment(2023, 3, 23, 0, 0, 0)), b"2023".to_vec());
    let empty = PathTemplate::compile(b"").unwrap();
    assert_eq!(empty.render(&moment(2023, 3, 23, 0, 0, 0)), Vec::<u8>::new());
}

#[test]
fn count_field_counts_every_occurrence() {
    let template = PathTemplate::compile(b"[year]/[month]/[year]-[month]-[day]-[year]").unwrap();
    assert_eq!(template.count_field(Field::Year), 3);
    assert_eq!(template.count_field(Field::Month), 2);
    assert_eq!(template.count_field(Field::Day), 1);
    assert_eq!(template.count_field(Field::Hour), 0);
    assert_eq!(template.count_field(Field::Minute), 0);
}

#[test]
fn render_agrees_with_the_formatter_of_time() {
    let text = "logs/app-[year]-[month]-[day]-[hour]-[minute].log";
    let format = time::format_description::parse_owned::<1>(text).unwrap();
    let template = PathTemplate::compile(text.as_bytes()).unwrap();
    let cases = [
        (0, 1, 1, 0, 0, 0),
        (9, 9, 9, 9, 9, 9),
        (1970, 1, 1, 0, 0, 0),
        (2023, 3, 23, 23, 59, 59),
        (2024, 2, 29, 12, 30, 0),
        (9999, 12, 31, 23, 59, 59),
    ];
    for (year, month, day, hour, minute, second) in cases {
        let date = time::Date::from_calendar_date(year, time::Month::try_from(month).unwrap(), day)
            .unwrap();
        let expected = date.with_hms(hour, minute, second).unwrap().format(&format).unwrap();
        let path = template.render(&moment(year, month, day, hour, minute, second));
        assert_eq!(path, expected.into_bytes());
    }
}

#[test]
fn extract_agrees_with_the_parser_of_time() {
    let text = "logs/app-[year]-[month]-[day].log";
    let format = time::format_description::parse_owned::<1>(text).unwrap();
    let template = PathTemplate::compile(text.as_bytes()).unwrap();
    let paths = ["logs/app-2023-03-23.log", "logs/app-0001-01-01.log", "logs/app-9999-12-31.log"];
    for path in paths {
        let date = time::Date::parse(path, &format).unwrap();
        let found = template.extract(path.as_bytes()).unwrap();
        assert_eq!(found.year, date.year());
        assert_eq!(found.month, u8::from(date.month()));
        assert_eq!(found.day, date.day());
    }
    assert!(time::Date::parse("logs/app-2023-02-30.log", &format).is_err());
    assert!(template.extract(b"logs/app-2023-02-30.log").is_err());
}
