use vstd::prelude::*;

verus! {

/// The failures a repository reports about the records it holds.
#[derive(Debug, PartialEq, Eq)]
pub enum RepositoryError {
    /// No record has the id.
    NotFound(i32),
    /// A record with the same name exists already, under the id given.
    Duplicate(i32),
    /// The database failed in a way not covered above; its description.
    Unexpected(String),
}

/// What the database driver reported when a query failed, as plain values.
#[derive(Debug, PartialEq, Eq)]
pub enum DbFailure {
    /// The query was expected to return a row and returned none.
    RowNotFound,
    /// Any other failure, with the driver's description of it.
    Other(String),
}

/// How an operation on a database-backed repository fails: with the
/// repository's own error, or with the database's failure passed on as it is.
#[derive(Debug, PartialEq, Eq)]
pub enum OperationError {
    Repository(RepositoryError),
    Database(DbFailure),
}

/// A failure of a query about the record `id`, as the repository reports it:
/// a missing row means the record is not there, anything else is unexpected.
pub open spec fn error_for_failure(id: i32, failure: DbFailure) -> RepositoryError {
    match failure {
        DbFailure::RowNotFound => RepositoryError::NotFound(id),
        DbFailure::Other(msg) => RepositoryError::Unexpected(msg),
    }
}

/// Turns a failure of a query about the record `id` into the repository's error.
pub fn repository_error_for(id: i32, failure: DbFailure) -> (e: RepositoryError)
    ensures
        e == error_for_failure(id, failure),
        failure == DbFailure::RowNotFound ==> e == RepositoryError::NotFound(id),
        failure matches DbFailure::Other(msg) ==> e == RepositoryError::Unexpected(msg),
{
    match failure {
        DbFailure::RowNotFound => RepositoryError::NotFound(id),
        DbFailure::Other(msg) => RepositoryError::Unexpected(msg),
    }
}

} // verus!
