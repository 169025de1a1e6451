//! Errors as clients see them, and how each failure of the core maps to one.
use vstd::prelude::*;
use vstd::string::*;
use crate::auth::AuthError;
use crate::database::DbError;
use crate::run::ClusterError;
use crate::transaction::{HandlerOutcome, TxError, commits, is_error_status};

verus! {

/// A field of a request that failed validation, and why.
pub struct FieldError {
    pub field: String,
    pub message: String,
}

pub open spec fn field_names(errors: Seq<FieldError>) -> Seq<Seq<char>> {
    errors.map_values(|e: FieldError| e.field@)
}

pub enum ApiError {
    Unauthorize,
    NotFound,
    AlreadyExists,
    Validation(Vec<FieldError>),
    InternalError,
}

pub type ApiResult<T> = Result<T, ApiError>;

/// Body of every error response.
pub struct ErrorMessage {
    pub status_code: u16,
    pub message: String,
}

/// The field names joined with `", "`.
pub open spec fn joined(names: Seq<Seq<char>>) -> Seq<char>
    decreases names.len(),
{
    if names.len() == 0 {
        Seq::empty()
    } else if names.len() == 1 {
        names[0]
    } else {
        joined(names.drop_last()) + ", "@ + names.last()
    }
}

impl ApiError {
    pub open spec fn spec_status(&self) -> u16 {
        match self {
            ApiError::Unauthorize => 401,
            ApiError::NotFound => 404,
            ApiError::AlreadyExists => 409,
            ApiError::Validation(_) => 400,
            ApiError::InternalError => 500,
        }
    }

    pub open spec fn spec_message(&self) -> Seq<char> {
        match self {
            ApiError::Unauthorize => "User not authorized"@,
            ApiError::NotFound => "Requested resources not found"@,
            ApiError::AlreadyExists => "The resource already exists"@,
            ApiError::Validation(fields) => "Validation error on fields: "@ + joined(field_names(fields@)),
            ApiError::InternalError => "An internal error occurred"@,
        }
    }

    pub fn status_code(&self) -> (r: u16)
        ensures
            r == self.spec_status(),
    {
        match self {
            ApiError::Unauthorize => 401,
            ApiError::NotFound => 404,
            ApiError::AlreadyExists => 409,
            ApiError::Validation(_) => 400,
            ApiError::InternalError => 500,
        }
    }

    pub fn message(&self) -> (r: String)
        ensures
            r@ == self.spec_message(),
    {
        match self {
            ApiError::Unauthorize => String::from_str("User not authorized"),
            ApiError::NotFound => String::from_str("Requested resources not found"),
            ApiError::AlreadyExists => String::from_str("The resource already exists"),
            ApiError::Validation(fields) => {
                let mut r = String::from_str("Validation error on fields: ");
                let ghost prefix = r@;
                let mut i: usize = 0;
                while i < fields.len()
                    invariant
                        i <= fields@.len(),
                        prefix == "Validation error on fields: "@,
                        r@ == prefix + joined(field_names(fields@).take(i as int)),
                    decreases fields@.len() - i,
                {
                    let ghost names = field_names(fields@);
                    assert(names.take(i + 1).drop_last() =~= names.take(i as int));
                    if i > 0 {
                        r.append(", ");
                    }
                    r.append(fields[i].field.as_str());
                    assert(r@ =~= prefix + joined(names.take(i + 1)));
                    i = i + 1;
                }
                assert(field_names(fields@).take(i as int) =~= field_names(fields@));
                r
            },
            ApiError::InternalError => String::from_str("An internal error occurred"),
        }
    }

    pub fn error_response(&self) -> (r: ErrorMessage)
        ensures
            r.status_code == self.spec_status(),
            r.message@ == self.spec_message(),
    {
        ErrorMessage { status_code: self.status_code(), message: self.message() }
    }

    pub fn from_db(err: DbError) -> (r: ApiError)
        ensures
            err is NotFound ==> r is NotFound,
            err is AlreadyExists ==> r is AlreadyExists,
            err matches DbError::Auth(AuthError::Invalid) ==> r is Unauthorize,
            err matches DbError::Auth(AuthError::Other(_)) ==> r is InternalError,
            err is OperationNotImplemented || err is Internal ==> r is InternalError,
    {
        match err {
            DbError::NotFound => ApiError::NotFound,
            DbError::AlreadyExists => ApiError::AlreadyExists,
            DbError::Auth(e) => ApiError::from_auth(e),
            _ => ApiError::InternalError,
        }
    }

    pub fn from_auth(err: AuthError) -> (r: ApiError)
        ensures
            err is Invalid ==> r is Unauthorize,
            err is Other ==> r is InternalError,
    {
        match err {
            AuthError::Invalid => ApiError::Unauthorize,
            AuthError::Other(_) => ApiError::InternalError,
        }
    }

    pub fn from_transaction(err: TxError) -> (r: ApiError)
        ensures
            r is InternalError,
    {
        ApiError::InternalError
    }

    /// Partial and total failures of a reconciliation look the same to clients.
    pub fn from_cluster(err: ClusterError) -> (r: ApiError)
        ensures
            r is InternalError,
    {
        ApiError::InternalError
    }
}

/// A unit of work commits exactly when the handler built a response whose
/// status is not of the client- or server-error class: a handler that
/// returns an error of this crate, or fails outright, has its catalog
/// writes rolled back.
pub proof fn lemma_commit_iff_success(status: u16, err: ApiError)
    ensures
        commits(HandlerOutcome::Responded(status)) <==> !is_error_status(status),
        !commits(HandlerOutcome::Failed),
        !commits(HandlerOutcome::Responded(err.spec_status())),
{
}

} // verus!
