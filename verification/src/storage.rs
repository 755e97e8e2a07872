//! Storage-related types.
//!
//! The persistence interface itself lives with the embedding application;
//! the library only defines the error raised when no store is configured.

use vstd::prelude::*;
use vstd::string::StringExecFns;

verus! {

/// Error returned when a storage operation is attempted before a backing
/// store has been configured.
#[derive(Debug)]
pub struct StorageNotConfigured;

impl StorageNotConfigured {
    /// The human-readable message for this error.
    pub fn message(&self) -> (s: String)
        ensures
            s@ == "storage not configured"@,
    {
        String::from_str("storage not configured")
    }
}

} // verus!
