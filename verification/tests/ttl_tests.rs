use chrono::TimeZone;

use hugo::errors::AppError;
use hugo::ops::{self, TtlOutcome};
use hugo::store::{all_records, initialize};
use hugo::ttl::parse_ttl;

fn local_ts(y: i32, mo: u32, d: u32, h: u32, mi: u32, s: u32) -> i64 {
    chrono::Local
        .with_ymd_and_hms(y, mo, d, h, mi, s)
        .single()
        .unwrap()
        .timestamp()
}

#[test]
fn ttl_parser_accepts_the_documented_forms() {
    let now = 1000;
    assert_eq!(
        parse_ttl("2020-01-01", now).unwrap(),
        local_ts(2020, 1, 1, 0, 0, 0)
    );
    assert_eq!(
        parse_ttl("2020-01-01 00:00:00", now).unwrap(),
        local_ts(2020, 1, 1, 0, 0, 0)
    );
    assert_eq!(
        parse_ttl("2020/01/01", now).unwrap(),
        local_ts(2020, 1, 1, 0, 0, 0)
    );
    assert_eq!(
        parse_ttl("2020/06/15 12:30:45", now).unwrap(),
        local_ts(2020, 6, 15, 12, 30, 45)
    );
    assert_eq!(parse_ttl("1 day", now).unwrap(), now + 86400);
    assert_eq!(parse_ttl("1s", now).unwrap(), now + 1);
    assert_eq!(parse_ttl("2 years 3 days", now).unwrap(), now + 63115200 + 259200);
    assert!(matches!(parse_ttl("not-a-date", now), Err(AppError::TtlFormat)));
}

#[test]
fn ttl_parser_rejects_impossible_dates() {
    assert!(matches!(parse_ttl("2019-02-29", 0), Err(AppError::TtlFormat)));
    assert!(matches!(parse_ttl("2020-13-01", 0), Err(AppError::TtlFormat)));
    assert!(matches!(parse_ttl("2020-00-10", 0), Err(AppError::TtlFormat)));
    assert!(matches!(parse_ttl("2020-01-32", 0), Err(AppError::TtlFormat)));
    assert!(matches!(parse_ttl("2020-01-01 24:00:00", 0), Err(AppError::TtlFormat)));
    assert!(matches!(parse_ttl("2020-01-01T00:00:00", 0), Err(AppError::TtlFormat)));
    // A leap day of a leap year is accepted.
    assert_eq!(
        parse_ttl("2020-02-29", 0).unwrap(),
        local_ts(2020, 2, 29, 0, 0, 0)
    );
}

#[test]
fn ttl_parser_rejects_overflowing_durations() {
    assert!(matches!(parse_ttl("1s", i64::MAX), Err(AppError::TtlFormat)));
}

#[test]
fn set_with_bad_ttl_changes_nothing() {
    let mut conn = initialize(":memory:").unwrap();
    assert!(matches!(
        ops::set(&mut conn, "k", Some("v"), Some("not-a-date"), 1000),
        Err(AppError::TtlFormat)
    ));
    assert_eq!(ops::get(&mut conn, "k", None, 1000).unwrap(), None);
}

#[test]
fn ttl_command_reports_and_rearms() {
    let mut conn = initialize(":memory:").unwrap();
    assert!(matches!(
        ops::ttl(&mut conn, "missing", None, 1000).unwrap(),
        TtlOutcome::NotFound
    ));
    assert!(ops::set(&mut conn, "k", Some("v"), Some("5s"), 1000).unwrap());
    match ops::ttl(&mut conn, "k", None, 1001).unwrap() {
        TtlOutcome::Current(e) => assert_eq!(e, Some(1005)),
        _ => panic!("expected the stored expiry to be reported"),
    }
    assert!(matches!(
        ops::ttl(&mut conn, "k", Some("10s"), 1001).unwrap(),
        TtlOutcome::Rearmed
    ));
    let rows = all_records(&conn).unwrap();
    assert_eq!(rows[0].expired_at, Some(1011));
    // A key whose expiry has passed reports NotFound and is purged.
    assert!(matches!(
        ops::ttl(&mut conn, "k", None, 2000).unwrap(),
        TtlOutcome::NotFound
    ));
    assert!(all_records(&conn).unwrap().is_empty());
}

#[test]
fn ttl_command_without_new_ttl_keeps_the_expiry() {
    let mut conn = initialize(":memory:").unwrap();
    assert!(ops::set(&mut conn, "k", Some("v"), Some("5s"), 1000).unwrap());
    let _ = ops::ttl(&mut conn, "k", None, 1001).unwrap();
    let rows = all_records(&conn).unwrap();
    assert_eq!(rows[0].expired_at, Some(1005));
}

#[test]
fn refresh_rearms_the_lease_on_read() {
    let mut conn = initialize(":memory:").unwrap();
    assert!(ops::set(&mut conn, "k", Some("v"), Some("5s"), 1000).unwrap());
    let got = ops::get_value_with_default(&mut conn, "k", None, true, Some(2000), 1001).unwrap();
    assert_eq!(got, Some(Some("v".to_string())));
    let rows = all_records(&conn).unwrap();
    assert_eq!(rows[0].expired_at, Some(2000));
    assert_eq!(rows[0].value, Some("v".to_string()));
}

#[test]
fn refresh_without_a_ttl_is_an_error() {
    let mut conn = initialize(":memory:").unwrap();
    assert!(ops::set(&mut conn, "k", Some("v"), None, 1000).unwrap());
    assert!(matches!(
        ops::get_value_with_default(&mut conn, "k", None, true, None, 1000),
        Err(AppError::NoTtlForRefresh)
    ));
    // The failed refresh changed nothing.
    let rows = all_records(&conn).unwrap();
    assert_eq!(rows[0].expired_at, None);
}

#[test]
fn set_with_ttl_overwrites_and_without_keeps() {
    let mut conn = initialize(":memory:").unwrap();
    assert!(ops::set(&mut conn, "k", Some("v1"), Some("5s"), 1000).unwrap());
    // A TTL-less set keeps the stored expiry.
    assert!(ops::set(&mut conn, "k", Some("v2"), None, 1001).unwrap());
    let rows = all_records(&conn).unwrap();
    assert_eq!(rows[0].expired_at, Some(1005));
    // A set with a TTL overwrites it.
    assert!(ops::set(&mut conn, "k", Some("v3"), Some("60s"), 1002).unwrap());
    let rows = all_records(&conn).unwrap();
    assert_eq!(rows[0].expired_at, Some(1062));
}
