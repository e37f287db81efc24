//! The outcomes of storage operations that are not a result.

use vstd::prelude::*;
use vstd::string::*;

verus! {

/// Why a storage operation gave no result.
#[derive(Debug, PartialEq, Eq)]
pub enum StorageError {
    /// No row where exactly one was expected.
    NotFound,
    /// Any other failure of the database layer, with its description.
    QueryFailed(String),
    /// No connection became free within the pool's timeout.
    PoolExhausted,
    /// Input from outside that was refused before storage was touched.
    ValidationFailed,
}

impl StorageError {
    /// The response status that an error is answered with.
    pub open spec fn spec_status(self) -> int {
        match self {
            StorageError::NotFound => 404,
            StorageError::QueryFailed(_) => 500,
            StorageError::PoolExhausted => 500,
            StorageError::ValidationFailed => 400,
        }
    }

    /// The response status that an error is answered with: a missing row is
    /// the client's concern, refused input is the client's fault, and
    /// everything else is a failure of the server.
    pub fn status(&self) -> (code: u16)
        ensures
            code == self.spec_status(),
    {
        match self {
            StorageError::NotFound => 404,
            StorageError::QueryFailed(_) => 500,
            StorageError::PoolExhausted => 500,
            StorageError::ValidationFailed => 400,
        }
    }

    /// Whether the caller sees the error as a failed query. An exhausted
    /// pool counts as one; it differs only in what is logged.
    pub fn is_query_failure(&self) -> (failed: bool)
        ensures
            failed == (self is QueryFailed || self is PoolExhausted),
    {
        match self {
            StorageError::QueryFailed(_) => true,
            StorageError::PoolExhausted => true,
            _ => false,
        }
    }
}

} // verus!
