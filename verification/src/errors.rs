//! The error taxonomy: structured storage-driver failures and their
//! translation to the closed set of client-facing outcomes.

use vstd::prelude::*;

verus! {

/// The structured kind of a storage-driver failure, as the edge reports it.
/// Classification works on this kind, never on error text.
pub enum StoreErrorKind {
    /// A uniqueness constraint was violated.
    UniqueViolation,
    /// A query expected a row and none matched.
    RowNotFound,
    /// Any other driver, transport or pool failure.
    Other,
}

/// A storage failure: its structured kind plus the driver's diagnostic text.
pub struct StoreFailure {
    pub kind: StoreErrorKind,
    pub detail: String,
}

/// A repository failure after classification.
pub enum RepoError {
    /// The requested id is absent.
    NotFound,
    /// A uniqueness constraint was violated on create.
    DuplicateEntry,
    /// Any other store or transport failure, with its diagnostic text.
    Internal { detail: String },
}

/// Classify a storage failure once; it is never re-interpreted downstream.
/// A uniqueness violation becomes `DuplicateEntry`, absence of an expected
/// row becomes `NotFound`, and anything else `Internal`, keeping the
/// driver's diagnostic text.
pub fn translate(f: StoreFailure) -> (r: RepoError)
    ensures
        f.kind is UniqueViolation ==> r is DuplicateEntry,
        f.kind is RowNotFound ==> r is NotFound,
        f.kind is Other ==> (r matches RepoError::Internal { detail } && detail@ == f.detail@),
{
    match f.kind {
        StoreErrorKind::UniqueViolation => RepoError::DuplicateEntry,
        StoreErrorKind::RowNotFound => RepoError::NotFound,
        StoreErrorKind::Other => RepoError::Internal { detail: f.detail },
    }
}

} // verus!
