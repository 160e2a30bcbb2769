//! The closed set of failure kinds that the records-management core reports.
//!
//! Callers branch on the failure category instead of parsing text: allocation
//! faults are fatal to a registration attempt, a missing record is an
//! expected, recoverable outcome, and the two are never conflated.

use vstd::prelude::*;

verus! {

/// Why an insert was refused by the record store.
#[derive(Clone, Copy, Debug, PartialEq, Eq, Structural)]
pub enum InsertFault {
    /// A record with the same identifier already exists; the unique
    /// constraint on identifiers rejected the document.
    DuplicateIdentifier,
    /// The storage layer failed to complete the insert.
    StorageFault,
}

/// Failure kinds of the records-management core.
#[derive(Clone, Copy, Debug, PartialEq, Eq, Structural)]
pub enum RecordError {
    /// The atomic counter increment did not complete; the registration
    /// attempt is aborted and never retried silently.
    AllocationFailed,
    /// The record insert failed; the identifier consumed for it is not
    /// recycled.
    InsertFailed(InsertFault),
    /// No record carries the given identifier. Expected and recoverable;
    /// distinct from a storage fault.
    RecordNotFound(u64),
    /// An underlying storage fault not classified above.
    StorageUnavailable,
    /// Login: no account matches the given lookup key.
    UserNotFound,
    /// Login: the account exists but the credential check failed.
    BadCredentials,
}

impl RecordError {
    /// The user-visible description of this failure kind.
    pub open spec fn message_spec(self) -> Seq<char> {
        match self {
            RecordError::AllocationFailed => "identifier allocation failed"@,
            RecordError::InsertFailed(InsertFault::DuplicateIdentifier) => {
                "insert rejected: duplicate identifier"@
            },
            RecordError::InsertFailed(InsertFault::StorageFault) => {
                "insert failed in the storage layer"@
            },
            RecordError::RecordNotFound(_) => "record not found"@,
            RecordError::StorageUnavailable => "storage unavailable"@,
            RecordError::UserNotFound => "user not found"@,
            RecordError::BadCredentials => "bad credentials"@,
        }
    }

    /// Renders the failure kind for a response body.
    pub fn message(&self) -> (m: &'static str)
        ensures
            m@ == self.message_spec(),
    {
        match self {
            RecordError::AllocationFailed => "identifier allocation failed",
            RecordError::InsertFailed(InsertFault::DuplicateIdentifier) => {
                "insert rejected: duplicate identifier"
            },
            RecordError::InsertFailed(InsertFault::StorageFault) => {
                "insert failed in the storage layer"
            },
            RecordError::RecordNotFound(_) => "record not found",
            RecordError::StorageUnavailable => "storage unavailable",
            RecordError::UserNotFound => "user not found",
            RecordError::BadCredentials => "bad credentials",
        }
    }
}

} // verus!
