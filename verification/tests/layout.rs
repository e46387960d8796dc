use tracing_rolling::layout::{describe, find_last};

#[test]
fn the_pattern_goes_before_the_extension() {
    assert_eq!(
        describe(b"logs/app.log", b"[year]-[month]-[day]"),
        b"logs/app-[year]-[month]-[day].log".to_vec()
    );
    assert_eq!(describe(b"app.log", b"[year]"), b"app-[year].log".to_vec());
    assert_eq!(describe(b"/var/log/a.b.c", b"X"), b"/var/log/a.b-X.c".to_vec());
}

#[test]
fn a_name_without_extension_gets_an_empty_one() {
    assert_eq!(describe(b"logs/app", b"[day]"), b"logs/app-[day].".to_vec());
    assert_eq!(describe(b"app.", b"[day]"), b"app-[day].".to_vec());
    assert_eq!(describe(b"", b"[day]"), b"-[day].".to_vec());
    assert_eq!(describe(b"logs/", b"[day]"), b"logs/-[day].".to_vec());
}

#[test]
fn a_dot_that_begins_the_name_begins_no_extension() {
    assert_eq!(describe(b"logs/.hidden", b"[day]"), b"logs/.hidden-[day].".to_vec());
    assert_eq!(describe(b".hidden.log", b"[day]"), b".hidden-[day].log".to_vec());
}

#[test]
fn a_dot_in_the_directory_begins_no_extension() {
    assert_eq!(describe(b"logs.d/app", b"[day]"), b"logs.d/app-[day].".to_vec());
    assert_eq!(describe(b"./app.log", b"[day]"), b"./app-[day].log".to_vec());
}

#[test]
fn find_last_finds_the_last_one_from_a_start() {
    assert_eq!(find_last(b"a/b/c", 0, b'/'), Some(3));
    assert_eq!(find_last(b"a/b/c", 3, b'/'), Some(3));
    assert_eq!(find_last(b"a/b/c", 4, b'/'), None);
    assert_eq!(find_last(b"abc", 0, b'/'), None);
    assert_eq!(find_last(b"", 0, b'/'), None);
}
