use hugo::command::{DefaultValue, Operation, Outcome, Refresh, Value};
use hugo::errors::AppError;
use hugo::ops;
use hugo::store::{all_records, initialize};
use hugo::types::Entry;

fn find(rows: &[Entry], key: &str) -> Option<Entry> {
    rows.iter().find(|e| e.key == key).cloned()
}

#[test]
fn gc_sweep_removes_exactly_the_expired_rows() {
    let mut conn = initialize(":memory:").unwrap();
    // Five rows; two expire before the sweep instant, one after, two never.
    assert!(ops::set_value(&mut conn, "a", Some("1"), Some(500), 100).unwrap());
    assert!(ops::set_value(&mut conn, "b", Some("2"), Some(900), 100).unwrap());
    assert!(ops::set_value(&mut conn, "c", Some("3"), Some(5000), 100).unwrap());
    assert!(ops::set_value(&mut conn, "d", Some("4"), None, 100).unwrap());
    assert!(ops::set_value(&mut conn, "e", None, None, 100).unwrap());
    assert!(ops::gc(&mut conn, 1000).unwrap());
    let rows = all_records(&conn).unwrap();
    assert_eq!(rows.len(), 3);
    assert!(find(&rows, "a").is_none());
    assert!(find(&rows, "b").is_none());
    assert!(find(&rows, "c").is_some());
    assert!(find(&rows, "d").is_some());
    assert!(find(&rows, "e").is_some());
}

#[test]
fn import_replays_every_source_row() {
    let source_conn = {
        let mut sc = initialize(":memory:").unwrap();
        assert!(ops::set_value(&mut sc, "a", Some("1"), None, 100).unwrap());
        assert!(ops::set_value(&mut sc, "b", None, Some(5000), 100).unwrap());
        assert!(ops::set_value(&mut sc, "c", Some("3"), None, 100).unwrap());
        sc
    };
    let mut target = initialize(":memory:").unwrap();
    assert!(ops::set_value(&mut target, "a", Some("old"), None, 50).unwrap());
    assert!(ops::import(&mut target, &source_conn, 200).unwrap());
    let rows = all_records(&target).unwrap();
    assert_eq!(rows.len(), 3);
    let a = find(&rows, "a").unwrap();
    assert_eq!(a.value, Some("1".to_string()));
    // The upsert kept the existing row's creation time and stamped a fresh
    // update time.
    assert_eq!(a.created_at, 50);
    assert_eq!(a.updated_at, 200);
    let b = find(&rows, "b").unwrap();
    assert_eq!(b.value, None);
    assert_eq!(b.expired_at, Some(5000));
    assert_eq!(find(&rows, "c").unwrap().value, Some("3".to_string()));
}

#[test]
fn import_aggregates_per_row_failures_without_aborting() {
    let source_conn = {
        let mut sc = initialize(":memory:").unwrap();
        assert!(ops::set_value(&mut sc, "bad", Some("1"), None, 100).unwrap());
        assert!(ops::set_value(&mut sc, "good1", Some("2"), None, 100).unwrap());
        assert!(ops::set_value(&mut sc, "good2", Some("3"), None, 100).unwrap());
        sc
    };
    let mut target = initialize(":memory:").unwrap();
    // Simulate a storage failure for one row: the engine refuses any write
    // of the key "bad".
    target
        .execute(
            "CREATE TRIGGER block_bad BEFORE INSERT ON h WHEN NEW.key = 'bad' BEGIN SELECT RAISE(ABORT, 'blocked'); END",
            (),
        )
        .unwrap();
    let outcome = ops::import(&mut target, &source_conn, 200).unwrap();
    // One row failed, so the aggregate is false, but the others were still
    // imported.
    assert!(!outcome);
    let rows = all_records(&target).unwrap();
    assert_eq!(rows.len(), 2);
    assert!(find(&rows, "bad").is_none());
    assert!(find(&rows, "good1").is_some());
    assert!(find(&rows, "good2").is_some());
}

#[test]
fn storage_errors_surface_as_the_storage_kind() {
    assert!(matches!(
        initialize("/nonexistent-dir-for-hugo-tests/db.sqlite"),
        Err(AppError::Storage(_))
    ));
}

#[test]
fn run_dispatches_each_operation_kind() {
    let mut conn = initialize(":memory:").unwrap();
    let put = Operation::Put {
        key: "k".to_string(),
        value: Some("v".to_string()),
        ttl: None,
    };
    assert!(matches!(
        hugo::command::run(&mut conn, &put, 1000).unwrap(),
        Outcome::Flag(true)
    ));
    let get = Operation::Get {
        key: "k".to_string(),
        default: None,
        ttl: None,
        refresh: false,
    };
    match hugo::command::run(&mut conn, &get, 1000).unwrap() {
        Outcome::Fetched(v) => assert_eq!(v, Some(Some("v".to_string()))),
        _ => panic!("expected a fetched value"),
    }
    let has = Operation::Has { key: "k".to_string() };
    assert!(matches!(
        hugo::command::run(&mut conn, &has, 1000).unwrap(),
        Outcome::Flag(true)
    ));
    let removed = Operation::Remove { key: "k".to_string() };
    assert!(matches!(
        hugo::command::run(&mut conn, &removed, 1000).unwrap(),
        Outcome::Flag(true)
    ));
    assert!(matches!(
        hugo::command::run(&mut conn, &Operation::Gc, 1000).unwrap(),
        Outcome::Flag(true)
    ));
}

#[test]
fn run_handles_ttl_and_swap_operations() {
    let mut conn = initialize(":memory:").unwrap();
    let put = Operation::Put {
        key: "k".to_string(),
        value: Some("v".to_string()),
        ttl: Some("5s".to_string()),
    };
    assert!(matches!(
        hugo::command::run(&mut conn, &put, 1000).unwrap(),
        Outcome::Flag(true)
    ));
    let show = Operation::Ttl { key: "k".to_string(), ttl: None };
    match hugo::command::run(&mut conn, &show, 1001).unwrap() {
        Outcome::Expiry(hugo::ops::TtlOutcome::Current(e)) => assert_eq!(e, Some(1005)),
        _ => panic!("expected the stored expiry"),
    }
    let swap = Operation::Swap {
        key: "k".to_string(),
        value: Some("w".to_string()),
        ttl: None,
    };
    match hugo::command::run(&mut conn, &swap, 1001).unwrap() {
        Outcome::Fetched(prior) => assert_eq!(prior, Some(Some("v".to_string()))),
        _ => panic!("expected the prior value"),
    }
}

#[test]
fn run_get_with_refresh_rearms_the_expiry() {
    let mut conn = initialize(":memory:").unwrap();
    let put = Operation::Put {
        key: "k".to_string(),
        value: Some("v".to_string()),
        ttl: Some("5s".to_string()),
    };
    assert!(matches!(
        hugo::command::run(&mut conn, &put, 1000).unwrap(),
        Outcome::Flag(true)
    ));
    let get = Operation::Get {
        key: "k".to_string(),
        default: None,
        ttl: Some("60s".to_string()),
        refresh: true,
    };
    match hugo::command::run(&mut conn, &get, 1001).unwrap() {
        Outcome::Fetched(v) => assert_eq!(v, Some(Some("v".to_string()))),
        _ => panic!("expected a fetched value"),
    }
    let rows = all_records(&conn).unwrap();
    assert_eq!(rows[0].expired_at, Some(1061));
}

#[test]
fn operation_accessors_report_their_arguments() {
    let put = Operation::Put {
        key: "k".to_string(),
        value: Some("v".to_string()),
        ttl: None,
    };
    assert_eq!(put.value(), Some(&"v".to_string()));
    assert_eq!(put.default(), None);
    assert!(!put.refresh());
    let get = Operation::Get {
        key: "k".to_string(),
        default: Some("d".to_string()),
        ttl: Some("5s".to_string()),
        refresh: true,
    };
    assert_eq!(get.value(), None);
    assert_eq!(get.default(), Some(&"d".to_string()));
    assert!(get.refresh());
}
