//! The closed set of operation kinds and the single dispatch consuming them.
//!
//! A caller (the command-line front end) validates its arguments into an
//! [`Operation`] and hands it, with one clock reading, to [`run`], which
//! performs exactly one value operation or the sweep against the store.

use vstd::prelude::*;

use crate::errors::AppResult;
use crate::model::{
    live, lookup, purge, rearm, rec_expired, sweep, upsert, upsert_keep_expiry, vopt, vopt2,
    vopt_ref, Rec,
};
use crate::ops::{check, gc, get_value_with_default, remove, swap_values, ttl, TtlOutcome};
use crate::store::records;
use crate::ttl::{admissible_expiry, parse_ttl};

verus! {

/// One validated request: an operation kind with its arguments.
pub enum Operation {
    /// Does the key hold a live record?
    Has { key: String },
    /// Read a value, with an optional fallback; with `refresh`, also re-arm
    /// the expiry of a live key to the supplied TTL.
    Get { key: String, default: Option<String>, ttl: Option<String>, refresh: bool },
    /// Upsert a value, with an optional TTL.
    Put { key: String, value: Option<String>, ttl: Option<String> },
    /// Get-then-set in one step, reporting the prior value.
    Swap { key: String, value: Option<String>, ttl: Option<String> },
    /// Swap, reporting only whether a prior value existed.
    Check { key: String, value: Option<String>, ttl: Option<String> },
    /// Delete a key outright.
    Remove { key: String },
    /// Query or re-arm a key's expiry.
    Ttl { key: String, ttl: Option<String> },
    /// Sweep every expired record.
    Gc,
}

/// What one dispatched operation reports.
pub enum Outcome {
    /// A yes/no result; `false` maps to the "not found" exit.
    Flag(bool),
    /// A read result: outer level presence, inner level a possibly null
    /// payload, to be printed when non-null.
    Fetched(Option<Option<String>>),
    /// What the `ttl` operation found and did.
    Expiry(TtlOutcome),
}

/// The contract of [`run`]: how the store moved from `m0` to `m1` and what
/// `r` reports, for each operation kind.
pub open spec fn run_post(
    op: Operation,
    m0: Map<Seq<char>, Rec>,
    m1: Map<Seq<char>, Rec>,
    r: AppResult<Outcome>,
    now: i64,
) -> bool {
    match op {
        Operation::Has { key } => {
            &&& r matches Ok(o) ==> (o matches Outcome::Flag(b) && (b <==> live(m0, key@, now))
                && m1 == purge(m0, key@, now))
            &&& r matches Err(e) ==> (e is Storage && m1 == m0)
        },
        Operation::Get { key, default, ttl, refresh } => {
            &&& r matches Ok(o) ==> (o matches Outcome::Fetched(v) && vopt2(v) == lookup(
                m0,
                key@,
                vopt(default),
                now,
            ))
            &&& r is Ok ==> (!live(m0, key@, now) ==> m1 == purge(m0, key@, now))
            &&& r is Ok ==> (live(m0, key@, now) && !refresh ==> m1 == m0)
            &&& r is Ok ==> (live(m0, key@, now) && refresh ==> (ttl matches Some(ts)
                && exists|t: i64|
                #![auto]
                admissible_expiry(ts@, now, t) && m1 == rearm(m0, key@, t)))
            &&& r matches Err(e) ==> ((e is Storage || (e is TtlFormat && ttl is Some) || (e
                is NoTtlForRefresh && refresh && ttl is None)) && (m1 == m0 || m1 == purge(
                m0,
                key@,
                now,
            )))
        },
        Operation::Put { key, value, ttl } => {
            &&& r matches Ok(o) ==> (o matches Outcome::Flag(b) && b)
            &&& r is Ok ==> (ttl is None ==> m1 == upsert_keep_expiry(m0, key@, vopt(value), now))
            &&& r is Ok ==> (ttl matches Some(ts) ==> exists|t: i64|
                #![auto]
                admissible_expiry(ts@, now, t) && m1 == upsert(m0, key@, vopt(value), Some(t), now))
            &&& r matches Err(e) ==> ((e is Storage || (e is TtlFormat && ttl is Some)) && m1
                == m0)
        },
        Operation::Swap { key, value, ttl } => {
            &&& r matches Ok(o) ==> (o matches Outcome::Fetched(p) && vopt2(p) == lookup(
                m0,
                key@,
                None,
                now,
            ))
            &&& r is Ok ==> (ttl is None ==> m1 == upsert_keep_expiry(
                purge(m0, key@, now),
                key@,
                vopt(value),
                now,
            ))
            &&& r is Ok ==> (ttl matches Some(ts) ==> exists|t: i64|
                #![auto]
                admissible_expiry(ts@, now, t) && m1 == upsert(
                    purge(m0, key@, now),
                    key@,
                    vopt(value),
                    Some(t),
                    now,
                ))
            &&& r matches Err(e) ==> ((e is Storage || (e is TtlFormat && ttl is Some)) && (m1
                == m0 || m1 == purge(m0, key@, now)))
        },
        Operation::Check { key, value, ttl } => {
            &&& r matches Ok(o) ==> (o matches Outcome::Flag(b) && (b <==> live(m0, key@, now)))
            &&& r is Ok ==> (ttl is None ==> m1 == upsert_keep_expiry(
                purge(m0, key@, now),
                key@,
                vopt(value),
                now,
            ))
            &&& r is Ok ==> (ttl matches Some(ts) ==> exists|t: i64|
                #![auto]
                admissible_expiry(ts@, now, t) && m1 == upsert(
                    purge(m0, key@, now),
                    key@,
                    vopt(value),
                    Some(t),
                    now,
                ))
            &&& r matches Err(e) ==> ((e is Storage || (e is TtlFormat && ttl is Some)) && (m1
                == m0 || m1 == purge(m0, key@, now)))
        },
        Operation::Remove { key } => {
            &&& r matches Ok(o) ==> (o matches Outcome::Flag(b) && (b <==> m0.dom().contains(key@))
                && m1 == m0.remove(key@))
            &&& r matches Err(e) ==> (e is Storage && m1 == m0)
        },
        Operation::Ttl { key, ttl } => {
            &&& r matches Ok(o) ==> (o matches Outcome::Expiry(w) && (w is NotFound <==> !live(
                m0,
                key@,
                now,
            )) && (w matches TtlOutcome::Current(e) ==> ttl is None && e == rec_expired(m0[key@]))
                && (w is Rearmed ==> ttl is Some))
            &&& r is Ok ==> (ttl is None ==> m1 == purge(m0, key@, now))
            &&& r is Ok ==> (!live(m0, key@, now) ==> m1 == purge(m0, key@, now))
            &&& r is Ok ==> (live(m0, key@, now) ==> (ttl matches Some(ts) ==> exists|t: i64|
                #![auto]
                admissible_expiry(ts@, now, t) && m1 == rearm(m0, key@, t)))
            &&& r matches Err(e) ==> ((e is Storage || (e is TtlFormat && ttl is Some)) && (m1
                == m0 || m1 == purge(m0, key@, now)))
        },
        Operation::Gc => {
            &&& r matches Ok(o) ==> (o matches Outcome::Flag(b) && b && m1 == sweep(m0, now))
            &&& r matches Err(e) ==> e is Storage
        },
    }
}

/// Perform exactly one operation against the store, with expiry judged
/// against the single clock reading `now`.
pub fn run(conn: &mut rusqlite::Connection, op: &Operation, now: i64) -> (r: AppResult<Outcome>)
    ensures
        run_post(*op, records(*old(conn)), records(*final(conn)), r, now),
{
    match op {
        Operation::Has { key } => {
            let found = crate::ops::get_value(conn, key.as_str(), now)?;
            Ok(Outcome::Flag(found.is_some()))
        },
        Operation::Get { key, default, ttl, refresh } => {
            let expired_at: Option<i64> = match ttl {
                Some(ts) => {
                    let t = parse_ttl(ts.as_str(), now)?;
                    proof {
                        assert(admissible_expiry(ts@, now, t));
                    }
                    Some(t)
                },
                None => None,
            };
            let default_ref: Option<&str> = match default {
                Some(d) => Some(d.as_str()),
                None => None,
            };
            let found = get_value_with_default(
                conn,
                key.as_str(),
                default_ref,
                *refresh,
                expired_at,
                now,
            )?;
            let out: Option<Option<String>> = match found {
                Some(v) => Some(v),
                None => match default {
                    Some(d) => Some(Some(d.as_str().to_owned())),
                    None => None,
                },
            };
            Ok(Outcome::Fetched(out))
        },
        Operation::Put { key, value, ttl } => {
            let value_ref: Option<&str> = match value {
                Some(v) => Some(v.as_str()),
                None => None,
            };
            let ttl_ref: Option<&str> = match ttl {
                Some(t) => Some(t.as_str()),
                None => None,
            };
            let b = crate::ops::set(conn, key.as_str(), value_ref, ttl_ref, now)?;
            Ok(Outcome::Flag(b))
        },
        Operation::Swap { key, value, ttl } => {
            let value_ref: Option<&str> = match value {
                Some(v) => Some(v.as_str()),
                None => None,
            };
            let ttl_ref: Option<&str> = match ttl {
                Some(t) => Some(t.as_str()),
                None => None,
            };
            let prior = swap_values(conn, key.as_str(), value_ref, ttl_ref, now)?;
            Ok(Outcome::Fetched(prior))
        },
        Operation::Check { key, value, ttl } => {
            let value_ref: Option<&str> = match value {
                Some(v) => Some(v.as_str()),
                None => None,
            };
            let ttl_ref: Option<&str> = match ttl {
                Some(t) => Some(t.as_str()),
                None => None,
            };
            let b = check(conn, key.as_str(), value_ref, ttl_ref, now)?;
            Ok(Outcome::Flag(b))
        },
        Operation::Remove { key } => {
            let b = remove(conn, key.as_str())?;
            Ok(Outcome::Flag(b))
        },
        Operation::Ttl { key, ttl: new_ttl } => {
            let ttl_ref: Option<&str> = match new_ttl {
                Some(t) => Some(t.as_str()),
                None => None,
            };
            let w = ttl(conn, key.as_str(), ttl_ref, now)?;
            Ok(Outcome::Expiry(w))
        },
        Operation::Gc => {
            let b = gc(conn, now)?;
            Ok(Outcome::Flag(b))
        },
    }
}

/// An operation that may carry a value argument.
pub trait Value {
    /// The value argument, if this operation kind carries one.
    spec fn spec_value(&self) -> Option<Seq<char>>;

    /// The value argument, if this operation kind carries one.
    fn value(&self) -> (v: Option<&String>)
        ensures
            vopt_ref(v) == self.spec_value(),
    ;
}

impl Value for Operation {
    open spec fn spec_value(&self) -> Option<Seq<char>> {
        match *self {
            Operation::Put { value, .. } => vopt(value),
            Operation::Swap { value, .. } => vopt(value),
            Operation::Check { value, .. } => vopt(value),
            _ => None,
        }
    }

    fn value(&self) -> (v: Option<&String>) {
        match self {
            Operation::Put { value, .. } => match value {
                Some(s) => Some(s),
                None => None,
            },
            Operation::Swap { value, .. } => match value {
                Some(s) => Some(s),
                None => None,
            },
            Operation::Check { value, .. } => match value {
                Some(s) => Some(s),
                None => None,
            },
            _ => None,
        }
    }
}

/// An operation that may carry a fallback for an absent or null value.
pub trait DefaultValue {
    /// The fallback value, if this operation kind carries one.
    spec fn spec_default(&self) -> Option<Seq<char>>;

    /// The fallback value, if this operation kind carries one.
    fn default(&self) -> (v: Option<&String>)
        ensures
            vopt_ref(v) == self.spec_default(),
    ;
}

impl DefaultValue for Operation {
    open spec fn spec_default(&self) -> Option<Seq<char>> {
        match *self {
            Operation::Get { default, .. } => vopt(default),
            _ => None,
        }
    }

    fn default(&self) -> (v: Option<&String>) {
        match self {
            Operation::Get { default, .. } => match default {
                Some(s) => Some(s),
                None => None,
            },
            _ => None,
        }
    }
}

/// An operation that may ask a successful read to re-arm the expiry.
pub trait Refresh {
    /// Whether the operation asks for a refresh.
    spec fn spec_refresh(&self) -> bool;

    /// Whether the operation asks for a refresh.
    fn refresh(&self) -> (b: bool)
        ensures
            b == self.spec_refresh(),
    ;
}

impl Refresh for Operation {
    open spec fn spec_refresh(&self) -> bool {
        match *self {
            Operation::Get { refresh, .. } => refresh,
            _ => false,
        }
    }

    fn refresh(&self) -> (b: bool) {
        match self {
            Operation::Get { refresh, .. } => *refresh,
            _ => false,
        }
    }
}

} // verus!
