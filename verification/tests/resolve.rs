use wrouch::resolver::times_from_date;
use wrouch::Cli;
use wrouch::DateError;
use wrouch::Executor;
use wrouch::TimeSource;
use wrouch::Timestamp;
use wrouch::TimestampPair;

fn cli(
    file_paths: Option<Vec<String>>,
    access: bool,
    no_create: bool,
    date: Option<String>,
    modification: bool,
    reference: Option<String>,
) -> Cli {
    Cli { file_paths, access, no_create, date, modification, reference }
}

fn local_epoch(year: i32, month: u32, day: u32, hour: u32, minute: u32, second: u32) -> i64 {
    match chrono::TimeZone::with_ymd_and_hms(&chrono::Local, year, month, day, hour, minute, second)
    {
        chrono::MappedLocalTime::Single(t) => chrono::DateTime::timestamp(&t),
        _ => panic!("the local time zone gave this calendar time no unique instant"),
    }
}

#[test]
fn date_string_resolves_to_chronos_instant() {
    let pair = times_from_date("2001-01-01 12:02:03").unwrap();
    let expected = local_epoch(2001, 1, 1, 12, 2, 3);
    assert_eq!(pair.access.secs, expected);
    assert_eq!(pair.modification.secs, expected);
    assert_eq!(pair.access.nanos, 0);
    assert_eq!(pair.modification.nanos, 0);
}

#[test]
fn date_only_resolves_to_local_midnight() {
    let pair = times_from_date("2001-01-01").unwrap();
    let expected = local_epoch(2001, 1, 1, 0, 0, 0);
    assert_eq!(pair.access.secs, expected);
    assert_eq!(pair.modification.secs, expected);
}

#[test]
fn one_second_later_is_one_second_more() {
    let midnight = times_from_date("2001-01-01 00:00:00").unwrap();
    let next = times_from_date("2001-01-01 00:00:01").unwrap();
    assert_eq!(next.access.secs, midnight.access.secs + 1);
}

#[test]
fn unparsable_date_is_an_error() {
    assert_eq!(times_from_date("not-a-date"), Err(DateError::Unparsable));
    assert_eq!(times_from_date("2001-02-30"), Err(DateError::Unparsable));
}

#[test]
fn current_time_used_when_nothing_is_given() {
    let mut exec = Executor::with_cli(cli(Some(vec!["a.txt".to_string()]), false, false, None, false, None));
    assert_eq!(exec.time_source(), TimeSource::CurrentTime);
    let now = Timestamp { secs: 1_000_000_000, nanos: 123 };
    exec.get_times(None, now).unwrap();
    assert_eq!(exec.times, Some(TimestampPair { access: now, modification: now }));
}

#[test]
fn reference_times_taken_verbatim() {
    let mut exec = Executor::with_cli(cli(
        Some(vec!["a.txt".to_string()]),
        false,
        false,
        None,
        false,
        Some("ref.txt".to_string()),
    ));
    assert_eq!(exec.time_source(), TimeSource::FromReference);
    let refpair = TimestampPair {
        access: Timestamp { secs: 11, nanos: 22 },
        modification: Timestamp { secs: 33, nanos: 44 },
    };
    let now = Timestamp { secs: 99, nanos: 0 };
    exec.get_times(Some(refpair), now).unwrap();
    assert_eq!(exec.times, Some(refpair));
}

#[test]
fn date_takes_precedence_over_reference() {
    let mut exec = Executor::with_cli(cli(
        Some(vec!["a.txt".to_string()]),
        false,
        false,
        Some("2001-01-01 12:02:03".to_string()),
        false,
        Some("ref.txt".to_string()),
    ));
    assert_eq!(exec.time_source(), TimeSource::FromDate);
    let refpair = TimestampPair {
        access: Timestamp { secs: 11, nanos: 22 },
        modification: Timestamp { secs: 33, nanos: 44 },
    };
    let now = Timestamp { secs: 99, nanos: 0 };
    exec.get_times(Some(refpair), now).unwrap();
    let expected = local_epoch(2001, 1, 1, 12, 2, 3);
    assert_eq!(exec.times.unwrap().access.secs, expected);
}

#[test]
fn bad_date_leaves_times_unresolved() {
    let mut exec = Executor::with_cli(cli(
        Some(vec!["a.txt".to_string()]),
        false,
        false,
        Some("not-a-date".to_string()),
        false,
        None,
    ));
    let now = Timestamp { secs: 99, nanos: 0 };
    assert_eq!(exec.get_times(None, now), Err(DateError::Unparsable));
    assert_eq!(exec.times, None);
}

#[test]
fn no_file_arguments_is_a_usage_error() {
    let exec = Executor::with_cli(cli(None, false, false, None, false, None));
    assert!(!exec.cli.has_targets());
    let with_files = Executor::with_cli(cli(Some(vec!["a.txt".to_string()]), false, false, None, false, None));
    assert!(with_files.cli.has_targets());
}
