//! A small key/value store with optional time-to-live expiry, backed by a
//! single-table relational database.
//!
//! Records are keyed by string; each carries an optional string value, a
//! creation time, an update time and an optional expiry time, all in seconds
//! since the Unix epoch. A record whose expiry lies in the past is treated as
//! absent by every read and is purged lazily on read or eagerly by a sweep.

use vstd::prelude::*;

pub mod command;
pub mod errors;
pub mod laws;
pub mod model;
pub mod ops;
pub mod store;
pub mod ttl;
pub mod types;

verus! {

} // verus!
