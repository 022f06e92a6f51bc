//! The value operations: read, upsert, remove and sweep, each specified
//! against the abstract map of the store's rows.
//!
//! Every operation takes the current wall-clock time as an explicit
//! parameter, so that one logical operation evaluates expiry against a single
//! snapshot of "now".

use vstd::prelude::*;

use crate::errors::{AppError, AppResult, AppResultU};
use crate::model::{
    imported, imported_or_untouched, is_expired_spec, live, lookup, or_default, purge, rearm,
    rec_expired, rec_value, same_at, sweep, upsert, upsert_keep_expiry, vopt, vopt2, vopt_str,
};
use crate::store::{
    all_records, delete_record, expirable_records, insert_record, query_record, records,
    update_expiry, update_record, update_record_keep_expiry,
};
use crate::ttl::{admissible_expiry, duration_secs, matches_civil, parse_ttl};
use crate::types::entry_rec;

verus! {

/// A record with this expiry is expired at `now` exactly when the expiry is
/// present and lies at or before `now`.
pub fn is_expired(expired_at: Option<i64>, now: i64) -> (b: bool)
    ensures
        b == is_expired_spec(expired_at, now),
{
    match expired_at {
        Some(t) => t <= now,
        None => false,
    }
}

/// Re-arm the expiry of `key` to `expired_at`; a missing key changes nothing.
pub fn set_expired_at(conn: &mut rusqlite::Connection, key: &str, expired_at: i64) -> (r:
    AppResultU)
    ensures
        r is Ok ==> records(*final(conn)) == (if records(*old(conn)).contains_key(key@) {
            rearm(records(*old(conn)), key@, expired_at)
        } else {
            records(*old(conn))
        }),
        r matches Err(e) ==> e is Storage && records(*final(conn)) == records(*old(conn)),
{
    update_expiry(conn, key, expired_at)?;
    Ok(())
}

/// Read the value and expiry of `key`. An expired row is deleted as a side
/// effect and reported as absent.
pub fn get_value_and_expired_at(conn: &mut rusqlite::Connection, key: &str, now: i64) -> (r:
    AppResult<Option<(Option<String>, Option<i64>)>>)
    ensures
        r matches Ok(opt) ==> records(*final(conn)) == purge(records(*old(conn)), key@, now),
        r matches Ok(opt) ==> (opt is Some <==> live(records(*old(conn)), key@, now)),
        r matches Ok(opt) ==> (opt matches Some(p) ==> vopt(p.0) == rec_value(
            records(*old(conn))[key@],
        ) && p.1 == rec_expired(records(*old(conn))[key@])),
        r matches Err(e) ==> e is Storage && records(*final(conn)) == records(*old(conn)),
{
    match query_record(conn, key)? {
        None => Ok(None),
        Some((value, _created, _updated, expired)) => {
            if is_expired(expired, now) {
                delete_record(conn, key)?;
                Ok(None)
            } else {
                Ok(Some((value, expired)))
            }
        },
    }
}

/// Read the value of `key`, substituting `default` for a null payload of a
/// live row; an absent or expired key reads as nothing. With `refresh`, a
/// successful read also re-arms the row's expiry to `expired_at`, which must
/// then be supplied.
pub fn get_value_with_default(
    conn: &mut rusqlite::Connection,
    key: &str,
    default: Option<&str>,
    refresh: bool,
    expired_at: Option<i64>,
    now: i64,
) -> (r: AppResult<Option<Option<String>>>)
    ensures
        r matches Ok(opt) ==> (opt is Some <==> live(records(*old(conn)), key@, now)),
        r matches Ok(opt) ==> (opt matches Some(v) ==> vopt(v) == or_default(
            rec_value(records(*old(conn))[key@]),
            vopt_str(default),
        )),
        r is Ok && !live(records(*old(conn)), key@, now) ==> records(*final(conn)) == purge(
            records(*old(conn)),
            key@,
            now,
        ),
        r is Ok && live(records(*old(conn)), key@, now) ==> records(*final(conn)) == (if refresh {
            rearm(records(*old(conn)), key@, expired_at->0)
        } else {
            records(*old(conn))
        }),
        live(records(*old(conn)), key@, now) && refresh && expired_at is None ==> (r matches Err(e)
            && (e is NoTtlForRefresh || e is Storage)),
        r matches Err(e) ==> (e is Storage || (e is NoTtlForRefresh && refresh && expired_at
            is None)) && records(*final(conn)) == records(*old(conn)),
{
    match get_value_and_expired_at(conn, key, now)? {
        None => Ok(None),
        Some((value, _expired)) => {
            if refresh {
                match expired_at {
                    Some(e) => {
                        set_expired_at(conn, key, e)?;
                    },
                    None => {
                        return Err(AppError::NoTtlForRefresh);
                    },
                }
            }
            let out: Option<String> = if value.is_some() {
                value
            } else {
                match default {
                    Some(d) => Some(d.to_owned()),
                    None => None,
                }
            };
            Ok(Some(out))
        },
    }
}

/// Read the value of `key` with no default and no refresh.
pub fn get_value(conn: &mut rusqlite::Connection, key: &str, now: i64) -> (r: AppResult<
    Option<Option<String>>,
>)
    ensures
        r matches Ok(opt) ==> records(*final(conn)) == purge(records(*old(conn)), key@, now),
        r matches Ok(opt) ==> (opt is Some <==> live(records(*old(conn)), key@, now)),
        r matches Ok(opt) ==> (opt matches Some(v) ==> vopt(v) == rec_value(
            records(*old(conn))[key@],
        )),
        r matches Err(e) ==> e is Storage && records(*final(conn)) == records(*old(conn)),
{
    get_value_with_default(conn, key, None, false, None, now)
}

/// The user-facing read: the stored value of a live key, with the default
/// taking the place of a null payload; an absent or expired key reports the
/// default as a found value when one was given, and nothing otherwise.
pub fn get(conn: &mut rusqlite::Connection, key: &str, default: Option<&str>, now: i64) -> (r:
    AppResult<Option<Option<String>>>)
    ensures
        r matches Ok(opt) ==> vopt2(opt) == lookup(records(*old(conn)), key@, vopt_str(default), now),
        r is Ok ==> records(*final(conn)) == purge(records(*old(conn)), key@, now),
        r matches Err(e) ==> e is Storage && records(*final(conn)) == records(*old(conn)),
{
    match get_value_with_default(conn, key, default, false, None, now)? {
        Some(v) => Ok(Some(v)),
        None => match default {
            Some(d) => Ok(Some(Some(d.to_owned()))),
            None => Ok(None),
        },
    }
}

/// Does `key` hold a live record? An expired row is purged by the probe and
/// reported as absent.
pub fn has(conn: &mut rusqlite::Connection, key: &str, now: i64) -> (r: AppResult<bool>)
    ensures
        r matches Ok(b) ==> (b <==> live(records(*old(conn)), key@, now)),
        r is Ok ==> records(*final(conn)) == purge(records(*old(conn)), key@, now),
        r matches Err(e) ==> e is Storage && records(*final(conn)) == records(*old(conn)),
{
    let found = get_value(conn, key, now)?;
    Ok(found.is_some())
}

/// The raw upsert: write `value` and the absolute expiry `expired_at` under
/// `key`. An existing row keeps its creation time; a fresh row is created at
/// `now`; the update time becomes `now` either way.
pub fn set_value(
    conn: &mut rusqlite::Connection,
    key: &str,
    value: Option<&str>,
    expired_at: Option<i64>,
    now: i64,
) -> (r: AppResult<bool>)
    ensures
        r matches Ok(b) ==> b && records(*final(conn)) == upsert(
            records(*old(conn)),
            key@,
            vopt_str(value),
            expired_at,
            now,
        ),
        r matches Err(e) ==> e is Storage && records(*final(conn)) == records(*old(conn)),
{
    // The primary key makes more than one updated row impossible; the update
    // either hit the one existing row or the key is free for insertion.
    let n = update_record(conn, key, value, now, expired_at)?;
    if n == 0 {
        insert_record(conn, key, value, now, now, expired_at)?;
    }
    Ok(true)
}

/// The upsert of a set that carries no TTL: as `set_value`, but an existing
/// row keeps its stored expiry and a fresh row never expires.
pub fn set_value_keep_expiry(
    conn: &mut rusqlite::Connection,
    key: &str,
    value: Option<&str>,
    now: i64,
) -> (r: AppResult<bool>)
    ensures
        r matches Ok(b) ==> b && records(*final(conn)) == upsert_keep_expiry(
            records(*old(conn)),
            key@,
            vopt_str(value),
            now,
        ),
        r matches Err(e) ==> e is Storage && records(*final(conn)) == records(*old(conn)),
{
    let n = update_record_keep_expiry(conn, key, value, now)?;
    if n == 0 {
        insert_record(conn, key, value, now, now, None)?;
    }
    Ok(true)
}

/// The user-facing upsert: a supplied TTL string is parsed into an absolute
/// expiry and overwrites the stored one; an omitted TTL leaves the stored
/// expiry untouched.
pub fn set(
    conn: &mut rusqlite::Connection,
    key: &str,
    value: Option<&str>,
    ttl: Option<&str>,
    now: i64,
) -> (r: AppResult<bool>)
    ensures
        r matches Ok(b) ==> b,
        ttl is None ==> (r is Ok ==> records(*final(conn)) == upsert_keep_expiry(
            records(*old(conn)),
            key@,
            vopt_str(value),
            now,
        )),
        ttl matches Some(ts) ==> (r is Ok ==> exists|t: i64|
            #![auto]
            admissible_expiry(ts@, now, t) && records(*final(conn)) == upsert(
                records(*old(conn)),
                key@,
                vopt_str(value),
                Some(t),
                now,
            )),
        ttl matches Some(ts) ==> (!matches_civil(ts@) && duration_secs(ts@) is None ==> (r matches
            Err(e) && e is TtlFormat)),
        r is Err ==> records(*final(conn)) == records(*old(conn)),
        r matches Err(e) ==> (e is Storage || (e is TtlFormat && ttl is Some)),
{
    match ttl {
        Some(ts) => {
            let t = parse_ttl(ts, now)?;
            proof {
                assert(admissible_expiry(ts@, now, t));
            }
            set_value(conn, key, value, Some(t), now)
        },
        None => set_value_keep_expiry(conn, key, value, now),
    }
}

/// The atomic get-then-set: report what a read of `key` would have found
/// immediately before the write, then upsert `value` as `set` does.
pub fn swap_values(
    conn: &mut rusqlite::Connection,
    key: &str,
    value: Option<&str>,
    ttl: Option<&str>,
    now: i64,
) -> (r: AppResult<Option<Option<String>>>)
    ensures
        r matches Ok(p) ==> vopt2(p) == lookup(records(*old(conn)), key@, None, now),
        ttl is None ==> (r is Ok ==> records(*final(conn)) == upsert_keep_expiry(
            purge(records(*old(conn)), key@, now),
            key@,
            vopt_str(value),
            now,
        )),
        ttl matches Some(ts) ==> (r is Ok ==> exists|t: i64|
            #![auto]
            admissible_expiry(ts@, now, t) && records(*final(conn)) == upsert(
                purge(records(*old(conn)), key@, now),
                key@,
                vopt_str(value),
                Some(t),
                now,
            )),
        r is Err ==> records(*final(conn)) == records(*old(conn)) || records(*final(conn))
            == purge(records(*old(conn)), key@, now),
        r matches Err(e) ==> (e is Storage || (e is TtlFormat && ttl is Some)),
{
    let prior = get_value(conn, key, now)?;
    set(conn, key, value, ttl, now)?;
    Ok(prior)
}

/// As `swap_values`; the caller prints the prior value.
pub fn swap(
    conn: &mut rusqlite::Connection,
    key: &str,
    value: Option<&str>,
    ttl: Option<&str>,
    now: i64,
) -> (r: AppResult<Option<Option<String>>>)
    ensures
        r matches Ok(p) ==> vopt2(p) == lookup(records(*old(conn)), key@, None, now),
        ttl is None ==> (r is Ok ==> records(*final(conn)) == upsert_keep_expiry(
            purge(records(*old(conn)), key@, now),
            key@,
            vopt_str(value),
            now,
        )),
        ttl matches Some(ts) ==> (r is Ok ==> exists|t: i64|
            #![auto]
            admissible_expiry(ts@, now, t) && records(*final(conn)) == upsert(
                purge(records(*old(conn)), key@, now),
                key@,
                vopt_str(value),
                Some(t),
                now,
            )),
        r is Err ==> records(*final(conn)) == records(*old(conn)) || records(*final(conn))
            == purge(records(*old(conn)), key@, now),
        r matches Err(e) ==> (e is Storage || (e is TtlFormat && ttl is Some)),
{
    swap_values(conn, key, value, ttl, now)
}

/// Swap and report only whether a prior value existed; the new value is
/// written either way.
pub fn check(
    conn: &mut rusqlite::Connection,
    key: &str,
    value: Option<&str>,
    ttl: Option<&str>,
    now: i64,
) -> (r: AppResult<bool>)
    ensures
        r matches Ok(b) ==> (b <==> live(records(*old(conn)), key@, now)),
        ttl is None ==> (r is Ok ==> records(*final(conn)) == upsert_keep_expiry(
            purge(records(*old(conn)), key@, now),
            key@,
            vopt_str(value),
            now,
        )),
        ttl matches Some(ts) ==> (r is Ok ==> exists|t: i64|
            #![auto]
            admissible_expiry(ts@, now, t) && records(*final(conn)) == upsert(
                purge(records(*old(conn)), key@, now),
                key@,
                vopt_str(value),
                Some(t),
                now,
            )),
        r is Err ==> records(*final(conn)) == records(*old(conn)) || records(*final(conn))
            == purge(records(*old(conn)), key@, now),
        r matches Err(e) ==> (e is Storage || (e is TtlFormat && ttl is Some)),
{
    let prior = swap_values(conn, key, value, ttl, now)?;
    Ok(prior.is_some())
}

/// Delete the row of `key`; report whether exactly one row went away.
pub fn remove(conn: &mut rusqlite::Connection, key: &str) -> (r: AppResult<bool>)
    ensures
        r matches Ok(b) ==> (b <==> records(*old(conn)).contains_key(key@)) && records(
            *final(conn),
        ) == records(*old(conn)).remove(key@),
        r matches Err(e) ==> e is Storage && records(*final(conn)) == records(*old(conn)),
{
    let n = delete_record(conn, key)?;
    Ok(n == 1)
}

/// What the `ttl` operation found and did.
pub enum TtlOutcome {
    /// The key is absent or expired; nothing was changed.
    NotFound,
    /// A new TTL was supplied and the key's expiry was re-armed to it.
    Rearmed,
    /// No new TTL was supplied; this is the stored expiry, unchanged.
    Current(Option<i64>),
}

/// Query or re-arm the expiry of `key`: with a TTL string, parse it and
/// overwrite the expiry of a live key; without one, report the stored expiry
/// unchanged. An absent or expired key reports `NotFound`.
pub fn ttl(conn: &mut rusqlite::Connection, key: &str, new_ttl: Option<&str>, now: i64) -> (r:
    AppResult<TtlOutcome>)
    ensures
        r matches Ok(o) ==> (o is NotFound <==> !live(records(*old(conn)), key@, now)),
        r matches Ok(o) ==> (o matches TtlOutcome::Current(e) ==> new_ttl is None && e == rec_expired(
            records(*old(conn))[key@],
        )),
        r matches Ok(o) ==> (o is Rearmed ==> new_ttl is Some),
        new_ttl is None ==> (r is Ok ==> records(*final(conn)) == purge(
            records(*old(conn)),
            key@,
            now,
        )),
        r is Ok && !live(records(*old(conn)), key@, now) ==> records(*final(conn)) == purge(
            records(*old(conn)),
            key@,
            now,
        ),
        new_ttl matches Some(ts) ==> (r is Ok && live(records(*old(conn)), key@, now)
            ==> exists|t: i64|
            #![auto]
            admissible_expiry(ts@, now, t) && records(*final(conn)) == rearm(
                records(*old(conn)),
                key@,
                t,
            )),
        new_ttl matches Some(ts) ==> (!matches_civil(ts@) && duration_secs(ts@) is None
            ==> r is Err || !live(records(*old(conn)), key@, now)),
        r is Err ==> records(*final(conn)) == records(*old(conn)) || records(*final(conn))
            == purge(records(*old(conn)), key@, now),
        r matches Err(e) ==> (e is Storage || (e is TtlFormat && new_ttl is Some)),
{
    match get_value_and_expired_at(conn, key, now)? {
        None => Ok(TtlOutcome::NotFound),
        Some((_value, expired_at)) => match new_ttl {
            Some(ts) => {
                let t = parse_ttl(ts, now)?;
                proof {
                    assert(admissible_expiry(ts@, now, t));
                }
                // The key was just read as live, so exactly one row is
                // re-armed; the primary key rules out more than one.
                update_expiry(conn, key, t)?;
                Ok(TtlOutcome::Rearmed)
            },
            None => Ok(TtlOutcome::Current(expired_at)),
        },
    }
}

/// The eager sweep: delete every row whose expiry lies at or before `now`,
/// evaluated against this one snapshot of the clock. On a storage failure
/// some expired rows may already be gone, but no live row is ever touched.
pub fn gc(conn: &mut rusqlite::Connection, now: i64) -> (r: AppResult<bool>)
    ensures
        r matches Ok(b) ==> b && records(*final(conn)) == sweep(records(*old(conn)), now),
        r matches Err(e) ==> e is Storage,
        r is Err ==> forall|k: Seq<char>|
            #[trigger] records(*final(conn)).dom().contains(k) ==> records(
                *old(conn),
            ).dom().contains(k) && records(*final(conn))[k] == records(*old(conn))[k],
        r is Err ==> forall|k: Seq<char>|
            records(*old(conn)).dom().contains(k) && !is_expired_spec(
                rec_expired(records(*old(conn))[k]),
                now,
            ) ==> #[trigger] records(*final(conn)).dom().contains(k),
{
    let list = expirable_records(conn)?;
    let ghost m = records(*conn);
    let mut i: usize = 0;
    while i < list.len()
        invariant
            i <= list@.len(),
            forall|j: int|
                0 <= j < list@.len() ==> m.contains_key((#[trigger] list@[j]).0@) && rec_expired(
                    m[list@[j].0@],
                ) == Some(list@[j].1),
            forall|k: Seq<char>|
                m.contains_key(k) && rec_expired(#[trigger] m[k]) is Some ==> exists|j: int|
                    0 <= j < list@.len() && #[trigger] list@[j].0@ == k,
            forall|k: Seq<char>|
                #[trigger] records(*conn).dom().contains(k) ==> m.contains_key(k) && records(
                    *conn,
                )[k] == m[k],
            forall|k: Seq<char>|
                m.contains_key(k) && !is_expired_spec(rec_expired(m[k]), now)
                    ==> #[trigger] records(*conn).dom().contains(k),
            forall|j: int|
                0 <= j < i && (#[trigger] list@[j]).1 <= now ==> !records(*conn).dom().contains(
                    list@[j].0@,
                ),
            records(*old(conn)) == m,
        decreases list@.len() - i,
    {
        let pair = &list[i];
        if is_expired(Some(pair.1), now) {
            delete_record(conn, pair.0.as_str())?;
        }
        i += 1;
    }
    proof {
        assert forall|k: Seq<char>| records(*conn).dom().contains(k) implies m.contains_key(k)
            && !is_expired_spec(rec_expired(m[k]), now) && records(*conn)[k] == m[k] by {
            if m.contains_key(k) && is_expired_spec(rec_expired(m[k]), now) {
                assert(exists|j: int| 0 <= j < list@.len() && #[trigger] list@[j].0@ == k);
                let j = choose|j: int| 0 <= j < list@.len() && #[trigger] list@[j].0@ == k;
                assert(list@[j].1 <= now);
                assert(!records(*conn).dom().contains(k));
            }
        }
        assert(records(*conn) =~= sweep(m, now));
    }
    Ok(true)
}

/// The bulk import: replay every row of `source` into this store through the
/// raw upsert, keeping the source's payload and absolute expiry and stamping
/// fresh update times. A row whose upsert fails is skipped — the remaining
/// rows are still processed — and the aggregate result is the conjunction of
/// the per-row outcomes.
pub fn import(conn: &mut rusqlite::Connection, source: &rusqlite::Connection, now: i64) -> (r:
    AppResult<bool>)
    ensures
        r is Ok ==> forall|k: Seq<char>|
            #[trigger] records(*source).dom().contains(k) ==> imported_or_untouched(
                records(*old(conn)),
                records(*final(conn)),
                k,
                rec_value(records(*source)[k]),
                rec_expired(records(*source)[k]),
                now,
            ),
        r matches Ok(b) ==> (b ==> forall|k: Seq<char>|
            #[trigger] records(*source).dom().contains(k) ==> imported(
                records(*old(conn)),
                records(*final(conn)),
                k,
                rec_value(records(*source)[k]),
                rec_expired(records(*source)[k]),
                now,
            )),
        r is Ok ==> forall|k: Seq<char>|
            !(#[trigger] records(*source).dom().contains(k)) ==> same_at(
                records(*final(conn)),
                records(*old(conn)),
                k,
            ),
        r matches Err(e) ==> e is Storage && records(*final(conn)) == records(*old(conn)),
{
    let entries = all_records(source)?;
    let ghost src = records(*source);
    let ghost m = records(*conn);
    let mut ok = true;
    let mut idx: usize = 0;
    while idx < entries.len()
        invariant
            idx <= entries@.len(),
            forall|i: int|
                0 <= i < entries@.len() ==> src.dom().contains((#[trigger] entries@[i]).key@)
                    && src[entries@[i].key@] == entry_rec(entries@[i]),
            forall|i: int, j: int|
                0 <= i < entries@.len() && 0 <= j < entries@.len() && i != j
                    ==> (#[trigger] entries@[i]).key@ != (#[trigger] entries@[j]).key@,
            forall|k: Seq<char>|
                !src.dom().contains(k) ==> same_at(records(*conn), m, k),
            forall|i: int|
                0 <= i < idx ==> imported_or_untouched(
                    m,
                    records(*conn),
                    (#[trigger] entries@[i]).key@,
                    rec_value(entry_rec(entries@[i])),
                    rec_expired(entry_rec(entries@[i])),
                    now,
                ),
            ok ==> forall|i: int|
                0 <= i < idx ==> imported(
                    m,
                    records(*conn),
                    (#[trigger] entries@[i]).key@,
                    rec_value(entry_rec(entries@[i])),
                    rec_expired(entry_rec(entries@[i])),
                    now,
                ),
            forall|i: int|
                idx <= i < entries@.len() ==> same_at(
                    records(*conn),
                    m,
                    (#[trigger] entries@[i]).key@,
                ),
            records(*old(conn)) == m,
        decreases entries@.len() - idx,
    {
        let e = &entries[idx];
        let value_ref: Option<&str> = match &e.value {
            Some(v) => Some(v.as_str()),
            None => None,
        };
        match set_value(conn, e.key.as_str(), value_ref, e.expired_at, now) {
            Ok(b) => {
                ok = ok && b;
            },
            Err(_) => {
                ok = false;
            },
        }
        idx += 1;
    }
    proof {
        assert forall|k: Seq<char>| records(*source).dom().contains(k) implies
            imported_or_untouched(
            m,
            records(*conn),
            k,
            rec_value(src[k]),
            rec_expired(src[k]),
            now,
        ) by {
            let i = choose|i: int| 0 <= i < entries@.len() && #[trigger] entries@[i].key@ == k;
            assert(imported_or_untouched(
                m,
                records(*conn),
                entries@[i].key@,
                rec_value(entry_rec(entries@[i])),
                rec_expired(entry_rec(entries@[i])),
                now,
            ));
        }
        if ok {
            assert forall|k: Seq<char>| records(*source).dom().contains(k) implies imported(
                m,
                records(*conn),
                k,
                rec_value(src[k]),
                rec_expired(src[k]),
                now,
            ) by {
                let i = choose|i: int| 0 <= i < entries@.len() && #[trigger] entries@[i].key@ == k;
                assert(imported(
                    m,
                    records(*conn),
                    entries@[i].key@,
                    rec_value(entry_rec(entries@[i])),
                    rec_expired(entry_rec(entries@[i])),
                    now,
                ));
            }
        }
    }
    Ok(ok)
}

} // verus!
