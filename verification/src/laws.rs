//! The library's laws: properties relating several operations, stated over
//! the model maps that the operations' contracts use, and proved once for
//! all stores, keys and times.

use vstd::prelude::*;
use vstd::set_lib::lemma_len_subset;

use crate::model::{
    expired_keys, is_expired_spec, live, lookup, purge, rec_created, rec_expired, rec_updated,
    sweep, upsert, upsert_keep_expiry, Rec,
};

verus! {

/// Law: an upsert leaves exactly one row for its key, whenever it runs
/// again. Two sets in a row — whatever the values, expiries or prior state —
/// leave the key's creation time where the first write put it, and move the
/// update time strictly forward as the clock does.
pub proof fn lemma_upsert_key_identity(
    m: Map<Seq<char>, Rec>,
    k: Seq<char>,
    v1: Option<Seq<char>>,
    v2: Option<Seq<char>>,
    e1: Option<i64>,
    e2: Option<i64>,
    t1: i64,
    t2: i64,
)
    requires
        t1 < t2,
    ensures
        upsert(m, k, v1, e1, t1).dom() == m.dom().insert(k),
        upsert(upsert(m, k, v1, e1, t1), k, v2, e2, t2).dom() == m.dom().insert(k),
        rec_created(upsert(upsert(m, k, v1, e1, t1), k, v2, e2, t2)[k]) == rec_created(
            upsert(m, k, v1, e1, t1)[k],
        ),
        rec_updated(upsert(upsert(m, k, v1, e1, t1), k, v2, e2, t2)[k]) > rec_updated(
            upsert(m, k, v1, e1, t1)[k],
        ),
{
    assert(upsert(m, k, v1, e1, t1).dom() =~= m.dom().insert(k));
    assert(upsert(upsert(m, k, v1, e1, t1), k, v2, e2, t2).dom() =~= m.dom().insert(k));
}

/// Law: a set with no TTL followed by a get of the same key, with no
/// default, reads back exactly the value written. The TTL-less set keeps the
/// prior expiry, so the law asks that this kept expiry has not already
/// passed: a key whose stored expiry lies at or before `now` reads as absent
/// again immediately after the write.
pub proof fn lemma_set_get_round_trip(m: Map<Seq<char>, Rec>, k: Seq<char>, v: Seq<char>, now: i64)
    requires
        m.contains_key(k) ==> !is_expired_spec(rec_expired(m[k]), now),
    ensures
        lookup(upsert_keep_expiry(m, k, Some(v), now), k, None, now) == Some(Some(v)),
{
}

/// Law: a set with a TTL that lies in the future, followed by a get of the
/// same key, reads back exactly the value written.
pub proof fn lemma_set_get_round_trip_ttl(
    m: Map<Seq<char>, Rec>,
    k: Seq<char>,
    v: Seq<char>,
    e: i64,
    now: i64,
)
    requires
        now < e,
    ensures
        lookup(upsert(m, k, Some(v), Some(e), now), k, None, now) == Some(Some(v)),
{
}

/// Law: a get of an absent key falls back to the default: with one, the
/// result is the default wrapped as a found value; without one, nothing.
pub proof fn lemma_default_fallback(m: Map<Seq<char>, Rec>, k: Seq<char>, d: Seq<char>, now: i64)
    requires
        !m.contains_key(k),
    ensures
        lookup(m, k, Some(d), now) == Some(Some(d)),
        lookup(m, k, None, now) is None,
{
}

/// Law: a null value is distinct from an absent key. After a set of the
/// null value, a get with a default reports that default, while the key
/// itself still reads as present (a get with no default reports an outer
/// "found" with an inner null). As in the round-trip law, the kept prior
/// expiry must not have passed already.
pub proof fn lemma_null_vs_absent(m: Map<Seq<char>, Rec>, k: Seq<char>, d: Seq<char>, now: i64)
    requires
        m.contains_key(k) ==> !is_expired_spec(rec_expired(m[k]), now),
    ensures
        lookup(upsert_keep_expiry(m, k, None, now), k, Some(d), now) == Some(Some(d)),
        lookup(upsert_keep_expiry(m, k, None, now), k, None, now) == Some(None::<Seq<char>>),
        live(upsert_keep_expiry(m, k, None, now), k, now),
{
}

/// Law: a swap's observation is atomic. The value it reports is exactly
/// what a read immediately before the write would have found, and a read
/// immediately after finds the newly written value — with no state in
/// between visible to either.
pub proof fn lemma_swap_observation(m: Map<Seq<char>, Rec>, k: Seq<char>, v: Seq<char>, now: i64)
    ensures
        lookup(upsert_keep_expiry(purge(m, k, now), k, Some(v), now), k, None, now) == Some(
            Some(v),
        ),
{
}

/// Law: a record whose expiry lies at or before `now` reads as absent, is
/// deleted by the read's purge, and does not survive a sweep.
pub proof fn lemma_expiry(
    m: Map<Seq<char>, Rec>,
    k: Seq<char>,
    v: Option<Seq<char>>,
    e: i64,
    t_set: i64,
    now: i64,
)
    requires
        e <= now,
    ensures
        !live(upsert(m, k, v, Some(e), t_set), k, now),
        lookup(upsert(m, k, v, Some(e), t_set), k, None, now) is None,
        purge(upsert(m, k, v, Some(e), t_set), k, now) == upsert(m, k, v, Some(e), t_set).remove(
            k,
        ),
        !sweep(upsert(m, k, v, Some(e), t_set), now).dom().contains(k),
{
}

/// The difference of a finite set and a subset of it loses exactly the
/// subset's cardinality.
proof fn lemma_len_difference_subset<A>(d: Set<A>, e: Set<A>)
    requires
        d.finite(),
        e.subset_of(d),
    ensures
        e.finite(),
        d.difference(e).finite(),
        d.difference(e).len() == d.len() - e.len(),
    decreases d.len(),
{
    lemma_len_subset(e, d);
    if e.is_empty() {
        assert(d.difference(e) =~= d);
    } else {
        let a = e.choose();
        assert(d.difference(e) =~= d.remove(a).difference(e.remove(a)));
        assert(e.remove(a).subset_of(d.remove(a)));
        lemma_len_difference_subset(d.remove(a), e.remove(a));
    }
}

/// Law: a sweep at `now` of a store of N rows, of which M are expired,
/// leaves exactly N − M rows: every expired row goes, every other stays.
pub proof fn lemma_sweep_count(m: Map<Seq<char>, Rec>, now: i64)
    requires
        m.dom().finite(),
    ensures
        expired_keys(m, now).finite(),
        expired_keys(m, now).len() <= m.dom().len(),
        sweep(m, now).dom().finite(),
        sweep(m, now).dom().len() == m.dom().len() - expired_keys(m, now).len(),
{
    assert(sweep(m, now).dom() =~= m.dom().difference(expired_keys(m, now)));
    assert(expired_keys(m, now).subset_of(m.dom()));
    lemma_len_difference_subset(m.dom(), expired_keys(m, now));
}

} // verus!
