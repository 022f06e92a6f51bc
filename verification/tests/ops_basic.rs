use hugo::ops;
use hugo::store::{all_records, initialize, vacuum};
use hugo::types::Entry;

fn find(rows: &[Entry], key: &str) -> Option<Entry> {
    rows.iter().find(|e| e.key == key).cloned()
}

#[test]
fn set_then_get_round_trip() {
    let mut conn = initialize(":memory:").unwrap();
    assert!(ops::set(&mut conn, "k", Some("v"), None, 1000).unwrap());
    let got = ops::get(&mut conn, "k", None, 1000).unwrap();
    assert_eq!(got, Some(Some("v".to_string())));
}

#[test]
fn default_fallback_on_missing() {
    let mut conn = initialize(":memory:").unwrap();
    let with_default = ops::get(&mut conn, "missing", Some("d"), 1000).unwrap();
    assert_eq!(with_default, Some(Some("d".to_string())));
    let without_default = ops::get(&mut conn, "missing", None, 1000).unwrap();
    assert_eq!(without_default, None);
}

#[test]
fn null_value_falls_back_to_default() {
    let mut conn = initialize(":memory:").unwrap();
    assert!(ops::set(&mut conn, "k", None, None, 1000).unwrap());
    let got = ops::get(&mut conn, "k", Some("d"), 1000).unwrap();
    assert_eq!(got, Some(Some("d".to_string())));
    assert!(ops::has(&mut conn, "k", 1000).unwrap());
    let bare = ops::get(&mut conn, "k", None, 1000).unwrap();
    assert_eq!(bare, Some(None));
}

#[test]
fn empty_string_is_a_value_not_null() {
    let mut conn = initialize(":memory:").unwrap();
    assert!(ops::set(&mut conn, "k", Some(""), None, 1000).unwrap());
    let got = ops::get(&mut conn, "k", Some("d"), 1000).unwrap();
    assert_eq!(got, Some(Some("".to_string())));
}

#[test]
fn upsert_keeps_created_at_and_advances_updated_at() {
    let mut conn = initialize(":memory:").unwrap();
    assert!(ops::set(&mut conn, "k", Some("v1"), None, 1000).unwrap());
    assert!(ops::set(&mut conn, "k", Some("v2"), None, 2000).unwrap());
    let rows = all_records(&conn).unwrap();
    assert_eq!(rows.len(), 1);
    let row = find(&rows, "k").unwrap();
    assert_eq!(row.value, Some("v2".to_string()));
    assert_eq!(row.created_at, 1000);
    assert_eq!(row.updated_at, 2000);
    assert!(row.updated_at > row.created_at);
}

#[test]
fn modify_arithmetic_on_counter() {
    // The numeric increment: read the current value (0.0 when the key is
    // absent), add the delta (1.0 when none is given), store the decimal
    // rendering back. Twice over, the counter reads 1 then 2.
    let mut conn = initialize(":memory:").unwrap();
    for expected in [1.0f64, 2.0f64] {
        let found = ops::get_value(&mut conn, "ctr", 1000).unwrap();
        let current: f64 = match found.flatten() {
            Some(v) => v.parse().unwrap(),
            None => 0.0,
        };
        let delta: f64 = 1.0;
        let modified = current + delta;
        assert_eq!(modified, expected);
        assert!(ops::set(&mut conn, "ctr", Some(&format!("{}", modified)), None, 1000).unwrap());
    }
    let stored = ops::get(&mut conn, "ctr", None, 1000).unwrap();
    assert_eq!(stored, Some(Some("2".to_string())));
}

#[test]
fn swap_returns_prior_value() {
    let mut conn = initialize(":memory:").unwrap();
    let first = ops::swap(&mut conn, "k", Some("new"), None, 1000).unwrap();
    assert_eq!(first, None);
    let second = ops::swap(&mut conn, "k", Some("newer"), None, 1001).unwrap();
    assert_eq!(second, Some(Some("new".to_string())));
    let got = ops::get(&mut conn, "k", None, 1001).unwrap();
    assert_eq!(got, Some(Some("newer".to_string())));
}

#[test]
fn check_reports_presence_and_writes() {
    let mut conn = initialize(":memory:").unwrap();
    assert!(!ops::check(&mut conn, "k", Some("v1"), None, 1000).unwrap());
    assert!(ops::check(&mut conn, "k", Some("v2"), None, 1001).unwrap());
    let got = ops::get(&mut conn, "k", None, 1001).unwrap();
    assert_eq!(got, Some(Some("v2".to_string())));
}

#[test]
fn remove_reports_whether_a_row_went() {
    let mut conn = initialize(":memory:").unwrap();
    assert!(ops::set(&mut conn, "k", Some("v"), None, 1000).unwrap());
    assert!(ops::remove(&mut conn, "k").unwrap());
    assert!(!ops::remove(&mut conn, "k").unwrap());
    assert_eq!(ops::get(&mut conn, "k", None, 1000).unwrap(), None);
}

#[test]
fn expiry_hides_the_row_and_purges_it() {
    let mut conn = initialize(":memory:").unwrap();
    assert!(ops::set(&mut conn, "k", Some("v"), Some("1s"), 1000).unwrap());
    // Still there just before the expiry instant.
    assert_eq!(
        ops::get(&mut conn, "k", None, 1000).unwrap(),
        Some(Some("v".to_string()))
    );
    // At and after the expiry instant the key reads as absent...
    assert_eq!(ops::get(&mut conn, "k", None, 1002).unwrap(), None);
    assert!(!ops::has(&mut conn, "k", 1002).unwrap());
    // ...and the lazy purge removed the row from a full scan.
    let rows = all_records(&conn).unwrap();
    assert!(find(&rows, "k").is_none());
}

#[test]
fn vacuum_leaves_rows_alone() {
    let mut conn = initialize(":memory:").unwrap();
    assert!(ops::set(&mut conn, "k", Some("v"), None, 1000).unwrap());
    vacuum(&mut conn).unwrap();
    assert_eq!(
        ops::get(&mut conn, "k", None, 1000).unwrap(),
        Some(Some("v".to_string()))
    );
}

#[test]
fn is_expired_boundary() {
    assert!(!ops::is_expired(None, 1000));
    assert!(!ops::is_expired(Some(1001), 1000));
    assert!(ops::is_expired(Some(1000), 1000));
    assert!(ops::is_expired(Some(999), 1000));
}
