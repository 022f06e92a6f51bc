//! The trusted boundary to the relational storage engine.
//!
//! The store is one table, `h`, keyed by `key`, holding the columns of
//! [`crate::types::Entry`]. Each function here wraps exactly one SQL
//! statement executed through `rusqlite`; its contract states the statement's
//! documented effect on [`records`], the abstract map of the table's rows.
//! Timestamps are stored as `INTEGER` seconds since the Unix epoch; the
//! uniqueness of `key` is the table's primary-key constraint, which is why an
//! `UPDATE ... WHERE key = ?` touches at most one row.
//!
//! [`records`] reads a connection as the sole door to its rows. Two
//! connections opened on the same database alias the same rows, and a write
//! through one would change what the other sees without its value changing;
//! the contracts here therefore assume the discipline of the surrounding
//! command: one writing connection per database, beside at most an
//! independent source that is only read.

use vstd::prelude::*;

use crate::errors::AppError;
use crate::model::{rec_created, rec_expired, rec_updated, rec_value, vopt, vopt_str, Rec};
use crate::types::{entry_rec, Entry};

verus! {

#[verifier::external_type_specification]
#[verifier::external_body]
pub struct ExConnection(rusqlite::Connection);

/// The rows of table `h` reachable through a connection: a map from key to
/// record. A connection owns its database handle, so the map is a property
/// of the connection value.
pub uninterp spec fn records(c: rusqlite::Connection) -> Map<Seq<char>, Rec>;

/// Relies on `rusqlite::Connection::open` and `Connection::execute`: opens
/// the database at `path` (the name `:memory:` denotes a fresh, empty
/// in-memory database) and creates table `h` if it is absent, leaving any
/// existing rows alone.
#[verifier::external_body]
pub fn initialize(path: &str) -> (r: Result<rusqlite::Connection, AppError>)
    ensures
        r matches Err(e) ==> e is Storage,
        r matches Ok(c) ==> (path@ == ":memory:"@ ==> records(c) == Map::<Seq<char>, Rec>::empty()),
{
    let conn = rusqlite::Connection::open(path).map_err(|e| AppError::Storage(e.to_string()))?;
    conn.execute(
        "CREATE TABLE IF NOT EXISTS h (key TEXT PRIMARY KEY, value TEXT, created_at INTEGER NOT NULL, updated_at INTEGER NOT NULL, expired_at INTEGER)",
        (),
    ).map_err(|e| AppError::Storage(e.to_string()))?;
    Ok(conn)
}

/// Relies on `rusqlite::Connection::query_row`: one row looked up by primary
/// key, or `QueryReturnedNoRows` when the key is absent.
#[verifier::external_body]
pub(crate) fn query_record(conn: &rusqlite::Connection, key: &str) -> (r: Result<
    Option<(Option<String>, i64, i64, Option<i64>)>,
    AppError,
>)
    ensures
        r matches Err(e) ==> e is Storage,
        r matches Ok(opt) ==> (opt is Some <==> records(*conn).contains_key(key@)),
        r matches Ok(opt) ==> (opt matches Some(t) ==> records(*conn)[key@] == (
            vopt(t.0),
            t.1,
            t.2,
            t.3,
        )),
{
    let res = conn.query_row(
        "SELECT value, created_at, updated_at, expired_at FROM h WHERE key = ?",
        &[&key as &dyn rusqlite::types::ToSql],
        |row| Ok((row.get(0)?, row.get(1)?, row.get(2)?, row.get(3)?)),
    );
    match res {
        Ok(t) => Ok(Some(t)),
        Err(rusqlite::Error::QueryReturnedNoRows) => Ok(None),
        Err(e) => Err(AppError::Storage(e.to_string())),
    }
}

/// Relies on `rusqlite::Connection::execute`: an `UPDATE` of value, update
/// time and expiry by primary key, returning the count of affected rows —
/// one when the key exists, zero when it does not.
#[verifier::external_body]
pub(crate) fn update_record(
    conn: &mut rusqlite::Connection,
    key: &str,
    value: Option<&str>,
    updated_at: i64,
    expired_at: Option<i64>,
) -> (r: Result<usize, AppError>)
    ensures
        r matches Err(e) ==> e is Storage,
        r matches Ok(n) ==> n <= 1 && ((n == 1) <==> records(*old(conn)).contains_key(key@)),
        r matches Ok(n) ==> (records(*old(conn)).contains_key(key@) ==> records(*final(conn))
            == records(*old(conn)).insert(
            key@,
            (vopt_str(value), rec_created(records(*old(conn))[key@]), updated_at, expired_at),
        )),
        r matches Ok(n) ==> (!records(*old(conn)).contains_key(key@) ==> records(*final(conn))
            == records(*old(conn))),
        r is Err ==> records(*final(conn)) == records(*old(conn)),
{
    conn.execute(
        "UPDATE h SET value = ?, updated_at = ?, expired_at = ? WHERE key = ?",
        &[&value as &dyn rusqlite::types::ToSql, &updated_at, &expired_at, &key],
    ).map_err(|e| AppError::Storage(e.to_string()))
}

/// Relies on `rusqlite::Connection::execute`: an `UPDATE` of value and update
/// time by primary key that leaves the stored expiry column alone.
#[verifier::external_body]
pub(crate) fn update_record_keep_expiry(
    conn: &mut rusqlite::Connection,
    key: &str,
    value: Option<&str>,
    updated_at: i64,
) -> (r: Result<usize, AppError>)
    ensures
        r matches Err(e) ==> e is Storage,
        r matches Ok(n) ==> n <= 1 && ((n == 1) <==> records(*old(conn)).contains_key(key@)),
        r matches Ok(n) ==> (records(*old(conn)).contains_key(key@) ==> records(*final(conn))
            == records(*old(conn)).insert(
            key@,
            (
                vopt_str(value),
                rec_created(records(*old(conn))[key@]),
                updated_at,
                rec_expired(records(*old(conn))[key@]),
            ),
        )),
        r matches Ok(n) ==> (!records(*old(conn)).contains_key(key@) ==> records(*final(conn))
            == records(*old(conn))),
        r is Err ==> records(*final(conn)) == records(*old(conn)),
{
    conn.execute(
        "UPDATE h SET value = ?, updated_at = ? WHERE key = ?",
        &[&value as &dyn rusqlite::types::ToSql, &updated_at, &key],
    ).map_err(|e| AppError::Storage(e.to_string()))
}

/// Relies on `rusqlite::Connection::execute`: an `UPDATE` of the expiry
/// column alone by primary key.
#[verifier::external_body]
pub(crate) fn update_expiry(conn: &mut rusqlite::Connection, key: &str, expired_at: i64) -> (r:
    Result<usize, AppError>)
    ensures
        r matches Err(e) ==> e is Storage,
        r matches Ok(n) ==> n <= 1 && ((n == 1) <==> records(*old(conn)).contains_key(key@)),
        r matches Ok(n) ==> (records(*old(conn)).contains_key(key@) ==> records(*final(conn))
            == records(*old(conn)).insert(
            key@,
            (
                rec_value(records(*old(conn))[key@]),
                rec_created(records(*old(conn))[key@]),
                rec_updated(records(*old(conn))[key@]),
                Some(expired_at),
            ),
        )),
        r matches Ok(n) ==> (!records(*old(conn)).contains_key(key@) ==> records(*final(conn))
            == records(*old(conn))),
        r is Err ==> records(*final(conn)) == records(*old(conn)),
{
    conn.execute(
        "UPDATE h SET expired_at = ? WHERE key = ?",
        &[&expired_at as &dyn rusqlite::types::ToSql, &key],
    ).map_err(|e| AppError::Storage(e.to_string()))
}

/// Relies on `rusqlite::Connection::execute`: an `INSERT` of a full row; the
/// primary-key constraint turns an insert of an existing key into an error
/// that changes nothing.
#[verifier::external_body]
pub(crate) fn insert_record(
    conn: &mut rusqlite::Connection,
    key: &str,
    value: Option<&str>,
    created_at: i64,
    updated_at: i64,
    expired_at: Option<i64>,
) -> (r: Result<(), AppError>)
    ensures
        r matches Err(e) ==> e is Storage,
        r is Ok ==> !records(*old(conn)).contains_key(key@) && records(*final(conn)) == records(
            *old(conn),
        ).insert(key@, (vopt_str(value), created_at, updated_at, expired_at)),
        r is Err ==> records(*final(conn)) == records(*old(conn)),
{
    conn.execute(
        "INSERT INTO h (key, value, created_at, updated_at, expired_at) VALUES (?, ?, ?, ?, ?)",
        &[
            &key as &dyn rusqlite::types::ToSql,
            &value,
            &created_at,
            &updated_at,
            &expired_at,
        ],
    ).map_err(|e| AppError::Storage(e.to_string()))?;
    Ok(())
}

/// Relies on `rusqlite::Connection::execute`: a `DELETE` by primary key,
/// returning the count of deleted rows.
#[verifier::external_body]
pub(crate) fn delete_record(conn: &mut rusqlite::Connection, key: &str) -> (r: Result<
    usize,
    AppError,
>)
    ensures
        r matches Err(e) ==> e is Storage,
        r matches Ok(n) ==> n <= 1 && ((n == 1) <==> records(*old(conn)).contains_key(key@)),
        r matches Ok(n) ==> records(*final(conn)) == records(*old(conn)).remove(key@),
        r is Err ==> records(*final(conn)) == records(*old(conn)),
{
    conn.execute("DELETE FROM h WHERE key = ?", &[&key as &dyn rusqlite::types::ToSql])
        .map_err(|e| AppError::Storage(e.to_string()))
}

/// Relies on `rusqlite::Statement::query_map`: a `SELECT` of the key and
/// expiry of every row whose expiry is non-null, in no promised order.
#[verifier::external_body]
pub(crate) fn expirable_records(conn: &rusqlite::Connection) -> (r: Result<
    Vec<(String, i64)>,
    AppError,
>)
    ensures
        r matches Err(e) ==> e is Storage,
        r matches Ok(v) ==> forall|i: int|
            0 <= i < v@.len() ==> records(*conn).contains_key(#[trigger] v@[i].0@) && rec_expired(
                records(*conn)[v@[i].0@],
            ) == Some(v@[i].1),
        r matches Ok(v) ==> forall|k: Seq<char>|
            records(*conn).contains_key(k) && rec_expired(#[trigger] records(*conn)[k]) is Some
                ==> exists|i: int| 0 <= i < v@.len() && #[trigger] v@[i].0@ == k,
        r matches Ok(v) ==> forall|i: int, j: int|
            0 <= i < v@.len() && 0 <= j < v@.len() && i != j ==> #[trigger] v@[i].0@ != #[trigger] v@[j].0@,
{
    conn.prepare("SELECT key, expired_at FROM h WHERE expired_at IS NOT NULL")
        .and_then(|mut stmt| stmt.query_map((), |row| Ok((row.get(0)?, row.get(1)?)))?.collect())
        .map_err(|e| AppError::Storage(e.to_string()))
}

/// Relies on `rusqlite::Statement::query_map`: a `SELECT` of every row, in no
/// promised order; the length of the result is the number of rows.
#[verifier::external_body]
pub fn all_records(conn: &rusqlite::Connection) -> (r: Result<Vec<Entry>, AppError>)
    ensures
        r matches Err(e) ==> e is Storage,
        r matches Ok(v) ==> records(*conn).dom().finite() && v@.len() == records(
            *conn,
        ).dom().len(),
        r matches Ok(v) ==> forall|i: int|
            0 <= i < v@.len() ==> records(*conn).contains_key(#[trigger] v@[i].key@) && records(
                *conn,
            )[v@[i].key@] == entry_rec(v@[i]),
        r matches Ok(v) ==> forall|k: Seq<char>|
            #[trigger] records(*conn).contains_key(k) ==> exists|i: int|
                0 <= i < v@.len() && #[trigger] v@[i].key@ == k,
        r matches Ok(v) ==> forall|i: int, j: int|
            0 <= i < v@.len() && 0 <= j < v@.len() && i != j ==> #[trigger] v@[i].key@
                != #[trigger] v@[j].key@,
{
    conn.prepare("SELECT key, value, created_at, updated_at, expired_at FROM h")
        .and_then(|mut stmt| stmt.query_map((), |row| Ok(Entry {
            key: row.get(0)?, value: row.get(1)?, created_at: row.get(2)?,
            updated_at: row.get(3)?, expired_at: row.get(4)?,
        }))?.collect())
        .map_err(|e| AppError::Storage(e.to_string()))
}

/// Relies on `rusqlite::Connection::execute`: `VACUUM` compacts the database
/// file and leaves every row as it was.
#[verifier::external_body]
pub fn vacuum(conn: &mut rusqlite::Connection) -> (r: Result<(), AppError>)
    ensures
        r matches Err(e) ==> e is Storage,
        records(*final(conn)) == records(*old(conn)),
{
    conn.execute("VACUUM", ()).map_err(|e| AppError::Storage(e.to_string()))?;
    Ok(())
}

} // verus!
