//! The persisted entity: one key's value and metadata.

use vstd::prelude::*;

use crate::model::{vopt, Rec};

verus! {

/// One row of the store: a key, an optional string payload, the creation and
/// last-update times, and an optional expiry time, times in seconds since the
/// Unix epoch.
#[derive(Debug, Clone)]
pub struct Entry {
    pub key: String,
    pub value: Option<String>,
    pub created_at: i64,
    pub updated_at: i64,
    pub expired_at: Option<i64>,
}

/// The record that an entry denotes in the model.
pub open spec fn entry_rec(e: Entry) -> Rec {
    (vopt(e.value), e.created_at, e.updated_at, e.expired_at)
}

} // verus!
