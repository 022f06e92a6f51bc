//! The mathematical model of the store: a map from keys to records, and the
//! effect of each operation on it.
//!
//! A record is the 4-tuple `(value, created_at, updated_at, expired_at)`:
//! an optional string payload, the insertion time, the last write time and an
//! optional expiry time, times in seconds since the Unix epoch.

use vstd::prelude::*;

verus! {

/// A stored record: payload, creation time, update time, optional expiry.
pub type Rec = (Option<Seq<char>>, i64, i64, Option<i64>);

/// The payload of a record.
pub open spec fn rec_value(r: Rec) -> Option<Seq<char>> {
    r.0
}

/// The creation time of a record; fixed at first insertion.
pub open spec fn rec_created(r: Rec) -> i64 {
    r.1
}

/// The time of the last successful write to a record.
pub open spec fn rec_updated(r: Rec) -> i64 {
    r.2
}

/// The expiry time of a record; `None` means it never expires.
pub open spec fn rec_expired(r: Rec) -> Option<i64> {
    r.3
}

/// The view of an optional owned string.
pub open spec fn vopt(v: Option<String>) -> Option<Seq<char>> {
    match v {
        Some(s) => Some(s@),
        None => None,
    }
}

/// The view of an optional borrowed string.
pub open spec fn vopt_str(v: Option<&str>) -> Option<Seq<char>> {
    match v {
        Some(s) => Some(s@),
        None => None,
    }
}

/// The view of an optional borrowed owned string.
pub open spec fn vopt_ref(v: Option<&String>) -> Option<Seq<char>> {
    match v {
        Some(s) => Some(s@),
        None => None,
    }
}

/// The view of a read's two-level result: the outer level reports presence,
/// the inner a possibly null payload.
pub open spec fn vopt2(v: Option<Option<String>>) -> Option<Option<Seq<char>>> {
    match v {
        Some(x) => Some(vopt(x)),
        None => None,
    }
}

/// An expiry timestamp at or before `now` makes a record expired.
pub open spec fn is_expired_spec(expired_at: Option<i64>, now: i64) -> bool {
    expired_at matches Some(t) && t <= now
}

/// A key is live when it is present and not expired.
pub open spec fn live(m: Map<Seq<char>, Rec>, k: Seq<char>, now: i64) -> bool {
    m.contains_key(k) && !is_expired_spec(rec_expired(m[k]), now)
}

/// The raw upsert: write `v` and the expiry `e` under `k`, stamping the
/// update time with `now` and keeping the creation time of an existing row.
pub open spec fn upsert(
    m: Map<Seq<char>, Rec>,
    k: Seq<char>,
    v: Option<Seq<char>>,
    e: Option<i64>,
    now: i64,
) -> Map<Seq<char>, Rec> {
    m.insert(k, (v, if m.contains_key(k) { rec_created(m[k]) } else { now }, now, e))
}

/// The upsert of a set without a TTL: as `upsert`, but an existing row keeps
/// its prior expiry; a fresh row never expires.
pub open spec fn upsert_keep_expiry(
    m: Map<Seq<char>, Rec>,
    k: Seq<char>,
    v: Option<Seq<char>>,
    now: i64,
) -> Map<Seq<char>, Rec> {
    upsert(m, k, v, if m.contains_key(k) { rec_expired(m[k]) } else { None }, now)
}

/// The state after a read of `k`: an expired row is purged, anything else is
/// left alone.
pub open spec fn purge(m: Map<Seq<char>, Rec>, k: Seq<char>, now: i64) -> Map<Seq<char>, Rec> {
    if m.contains_key(k) && is_expired_spec(rec_expired(m[k]), now) {
        m.remove(k)
    } else {
        m
    }
}

/// The payload read for a live key, with the default taking the place of a
/// null payload.
pub open spec fn or_default(v: Option<Seq<char>>, d: Option<Seq<char>>) -> Option<Seq<char>> {
    if v is Some {
        v
    } else {
        d
    }
}

/// What a read of `k` with default `d` reports: for a live key, its payload
/// with the default in place of null; for an absent or expired key, the
/// default if one was given, else nothing.
pub open spec fn lookup(
    m: Map<Seq<char>, Rec>,
    k: Seq<char>,
    d: Option<Seq<char>>,
    now: i64,
) -> Option<Option<Seq<char>>> {
    if live(m, k, now) {
        Some(or_default(rec_value(m[k]), d))
    } else if d is Some {
        Some(d)
    } else {
        None
    }
}

/// Re-arm the expiry of an existing key, leaving everything else unchanged.
pub open spec fn rearm(m: Map<Seq<char>, Rec>, k: Seq<char>, e: i64) -> Map<Seq<char>, Rec> {
    m.insert(k, (rec_value(m[k]), rec_created(m[k]), rec_updated(m[k]), Some(e)))
}

/// The state after an eager sweep at `now`: exactly the unexpired rows stay.
pub open spec fn sweep(m: Map<Seq<char>, Rec>, now: i64) -> Map<Seq<char>, Rec> {
    Map::new(
        |k: Seq<char>| m.contains_key(k) && !is_expired_spec(rec_expired(m[k]), now),
        |k: Seq<char>| m[k],
    )
}

/// Key `k` reads the same in `a` as in `b`.
pub open spec fn same_at(a: Map<Seq<char>, Rec>, b: Map<Seq<char>, Rec>, k: Seq<char>) -> bool {
    (a.dom().contains(k) <==> b.dom().contains(k)) && (a.dom().contains(k) ==> a[k] == b[k])
}

/// Key `k` of `m1` carries the replayed row `(v, e)` over the prior state
/// `m0`: the payload and expiry of the source row, a fresh update time, and
/// the creation time an upsert at `now` gives.
pub open spec fn imported(
    m0: Map<Seq<char>, Rec>,
    m1: Map<Seq<char>, Rec>,
    k: Seq<char>,
    v: Option<Seq<char>>,
    e: Option<i64>,
    now: i64,
) -> bool {
    m1.dom().contains(k) && m1[k] == (
        v,
        if m0.dom().contains(k) {
            rec_created(m0[k])
        } else {
            now
        },
        now,
        e,
    )
}

/// Key `k` was either replayed into `m1` or left exactly as `m0` had it.
pub open spec fn imported_or_untouched(
    m0: Map<Seq<char>, Rec>,
    m1: Map<Seq<char>, Rec>,
    k: Seq<char>,
    v: Option<Seq<char>>,
    e: Option<i64>,
    now: i64,
) -> bool {
    imported(m0, m1, k, v, e, now) || same_at(m1, m0, k)
}

/// The keys of `m` that are expired at `now`.
pub open spec fn expired_keys(m: Map<Seq<char>, Rec>, now: i64) -> Set<Seq<char>> {
    m.dom().filter(|k: Seq<char>| is_expired_spec(rec_expired(m[k]), now))
}

} // verus!
