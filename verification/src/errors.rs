//! The error taxonomy of the library.

use vstd::prelude::*;

verus! {

/// An operation's failure: a storage-layer error carrying the engine's
/// message, a time-to-live string that no accepted form parses, or a refresh
/// request that supplied no expiry to re-arm with.
#[derive(Debug, Clone)]
pub enum AppError {
    Storage(String),
    TtlFormat,
    NoTtlForRefresh,
}

pub type AppResult<T> = Result<T, AppError>;

pub type AppResultU = Result<(), AppError>;

impl AppError {
    /// A short label for the error kind, for display by a caller.
    pub fn message(&self) -> (r: String)
        ensures
            self is Storage ==> r@ == self->Storage_0@,
    {
        match self {
            AppError::Storage(s) => s.clone(),
            AppError::TtlFormat => "TTL format error".to_string(),
            AppError::NoTtlForRefresh => "no TTL supplied for refresh".to_string(),
        }
    }
}

} // verus!
