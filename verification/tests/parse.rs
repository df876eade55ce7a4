use wrouch::datetime::days_in_month;
use wrouch::datetime::is_leap_year;
use wrouch::datetime::parse_date_string;
use wrouch::datetime::LocalDateTime;

#[test]
fn parses_full_datetime() {
    let dt = parse_date_string("2001-01-01 12:02:03").unwrap();
    assert_eq!(
        dt,
        LocalDateTime { year: 2001, month: 1, day: 1, hour: 12, minute: 2, second: 3 }
    );
}

#[test]
fn parses_date_only_as_midnight() {
    let dt = parse_date_string("2001-01-01").unwrap();
    assert_eq!(
        dt,
        LocalDateTime { year: 2001, month: 1, day: 1, hour: 0, minute: 0, second: 0 }
    );
}

#[test]
fn parses_end_of_year() {
    let dt = parse_date_string("1999-12-31 23:59:59").unwrap();
    assert_eq!(
        dt,
        LocalDateTime { year: 1999, month: 12, day: 31, hour: 23, minute: 59, second: 59 }
    );
}

#[test]
fn accepts_leap_day_in_leap_years() {
    assert!(parse_date_string("2000-02-29").is_some());
    assert!(parse_date_string("2004-02-29 06:30:00").is_some());
}

#[test]
fn rejects_leap_day_in_common_years() {
    assert!(parse_date_string("1900-02-29").is_none());
    assert!(parse_date_string("2001-02-29").is_none());
}

#[test]
fn rejects_unparsable_strings() {
    assert!(parse_date_string("not-a-date").is_none());
    assert!(parse_date_string("").is_none());
    assert!(parse_date_string("2001/01/01").is_none());
    assert!(parse_date_string("2001-01-01T12:02:03").is_none());
    assert!(parse_date_string("2001-1-01").is_none());
    assert!(parse_date_string("2001-01-01 12:02:3").is_none());
    assert!(parse_date_string("2001-01-01 12:02:03 ").is_none());
}

#[test]
fn rejects_fields_out_of_range() {
    assert!(parse_date_string("2001-00-01").is_none());
    assert!(parse_date_string("2001-13-01").is_none());
    assert!(parse_date_string("2001-01-00").is_none());
    assert!(parse_date_string("2001-01-32").is_none());
    assert!(parse_date_string("2001-04-31").is_none());
    assert!(parse_date_string("2001-01-01 24:00:00").is_none());
    assert!(parse_date_string("2001-01-01 12:60:00").is_none());
    assert!(parse_date_string("2001-01-01 12:02:60").is_none());
}

#[test]
fn leap_year_rule() {
    assert!(is_leap_year(2000));
    assert!(is_leap_year(2004));
    assert!(!is_leap_year(1900));
    assert!(!is_leap_year(2001));
}

#[test]
fn month_lengths() {
    assert_eq!(days_in_month(2001, 1), 31);
    assert_eq!(days_in_month(2001, 2), 28);
    assert_eq!(days_in_month(2000, 2), 29);
    assert_eq!(days_in_month(2001, 4), 30);
    assert_eq!(days_in_month(2001, 6), 30);
    assert_eq!(days_in_month(2001, 9), 30);
    assert_eq!(days_in_month(2001, 11), 30);
    assert_eq!(days_in_month(2001, 12), 31);
}
