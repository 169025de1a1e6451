//! Catalog failures, as the rest of the control plane sees them.
use vstd::prelude::*;
use crate::auth::AuthError;

verus! {

#[verifier::external_type_specification]
#[verifier::external_body]
pub struct ExSqlxError(sqlx::Error);

/// Catalog operations an entity may leave unimplemented.
#[derive(Clone, Copy, Debug, PartialEq, Eq, Structural)]
pub enum Operation {
    All,
    Get,
    Create,
    Update,
    Delete,
}

/// What a failed catalog statement means for the request.
#[derive(Clone, Copy, Debug, PartialEq, Eq, Structural)]
pub enum SqlFailure {
    /// The statement matched no row.
    RowNotFound,
    /// A unique or primary key constraint rejected the row.
    UniqueViolation,
    /// A foreign key constraint rejected the row: what it refers to is gone.
    ForeignKeyViolation,
    Other,
}

/// What a catalog error means, as `sql_failure` tells it.
pub uninterp spec fn sql_failure_of(err: sqlx::Error) -> SqlFailure;

/// Relies on the variants of `sqlx::Error` and on `sqlx::error::DatabaseError::kind`:
/// tells a missing row and the two constraint violations apart from the rest.
/// The answer depends on the error value alone.
#[verifier::external_body]
pub(crate) fn sql_failure(err: &sqlx::Error) -> (r: SqlFailure)
    ensures
        r == sql_failure_of(*err),
{
    match err {
        sqlx::Error::RowNotFound => SqlFailure::RowNotFound,
        sqlx::Error::Database(db) => match db.kind() {
            sqlx::error::ErrorKind::UniqueViolation => SqlFailure::UniqueViolation,
            sqlx::error::ErrorKind::ForeignKeyViolation => SqlFailure::ForeignKeyViolation,
            _ => SqlFailure::Other,
        },
        _ => SqlFailure::Other,
    }
}

#[derive(Debug)]
pub enum DbError {
    NotFound,
    AlreadyExists,
    OperationNotImplemented(Operation),
    Internal(sqlx::Error),
    Auth(AuthError),
}

pub type DbResult<T> = Result<T, DbError>;

impl DbError {
    /// Maps a failed statement, classified as `kind`, to the domain's terms.
    pub fn from_failure(kind: SqlFailure, err: sqlx::Error) -> (r: DbError)
        ensures
            kind is RowNotFound || kind is ForeignKeyViolation ==> r is NotFound,
            kind is UniqueViolation ==> r is AlreadyExists,
            kind is Other ==> r == DbError::Internal(err),
    {
        match kind {
            SqlFailure::RowNotFound => DbError::NotFound,
            SqlFailure::UniqueViolation => DbError::AlreadyExists,
            SqlFailure::ForeignKeyViolation => DbError::NotFound,
            SqlFailure::Other => DbError::Internal(err),
        }
    }

    pub fn from_sqlx(err: sqlx::Error) -> (r: DbError)
        ensures
            sql_failure_of(err) is RowNotFound || sql_failure_of(err) is ForeignKeyViolation ==> r is NotFound,
            sql_failure_of(err) is UniqueViolation ==> r is AlreadyExists,
            sql_failure_of(err) is Other ==> r == DbError::Internal(err),
    {
        let kind = sql_failure(&err);
        DbError::from_failure(kind, err)
    }

    pub fn from_auth(err: AuthError) -> (r: DbError)
        ensures
            r == DbError::Auth(err),
    {
        DbError::Auth(err)
    }
}

} // verus!
