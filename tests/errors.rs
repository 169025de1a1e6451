use gws::auth::AuthError;
use gws::database::{DbError, Operation};
use gws::error::{ApiError, FieldError};
use gws::run::ClusterError;
use gws::transaction::TxError;

#[test]
fn status_codes_per_error() {
    assert_eq!(ApiError::Unauthorize.status_code(), 401);
    assert_eq!(ApiError::NotFound.status_code(), 404);
    assert_eq!(ApiError::AlreadyExists.status_code(), 409);
    assert_eq!(ApiError::Validation(Vec::new()).status_code(), 400);
    assert_eq!(ApiError::InternalError.status_code(), 500);
}

#[test]
fn messages_per_error() {
    assert_eq!(ApiError::Unauthorize.message(), "User not authorized");
    assert_eq!(ApiError::NotFound.message(), "Requested resources not found");
    assert_eq!(ApiError::AlreadyExists.message(), "The resource already exists");
    assert_eq!(ApiError::InternalError.message(), "An internal error occurred");
    let fields = vec![
        FieldError { field: "name".to_string(), message: "cannot be empty".to_string() },
        FieldError { field: "port".to_string(), message: "out of range".to_string() },
    ];
    assert_eq!(ApiError::Validation(fields).message(), "Validation error on fields: name, port");
}

#[test]
fn error_response_body() {
    let body = ApiError::NotFound.error_response();
    assert_eq!(body.status_code, 404);
    assert_eq!(body.message, "Requested resources not found");
}

#[test]
fn catalog_errors_map_to_client_errors() {
    assert!(matches!(ApiError::from_db(DbError::NotFound), ApiError::NotFound));
    assert!(matches!(ApiError::from_db(DbError::AlreadyExists), ApiError::AlreadyExists));
    assert!(matches!(ApiError::from_db(DbError::Auth(AuthError::Invalid)), ApiError::Unauthorize));
    assert!(matches!(
        ApiError::from_db(DbError::Auth(AuthError::Other("x".to_string()))),
        ApiError::InternalError
    ));
    assert!(matches!(
        ApiError::from_db(DbError::OperationNotImplemented(Operation::Get)),
        ApiError::InternalError
    ));
    assert!(matches!(ApiError::from_db(DbError::Internal(sqlx::Error::PoolClosed)), ApiError::InternalError));
}

#[test]
fn sql_failures_are_classified() {
    assert!(matches!(DbError::from_sqlx(sqlx::Error::RowNotFound), DbError::NotFound));
    assert!(matches!(DbError::from_sqlx(sqlx::Error::PoolTimedOut), DbError::Internal(_)));
}

#[test]
fn other_failures_are_internal() {
    assert!(matches!(ApiError::from_transaction(TxError::MultipleExtractors), ApiError::InternalError));
    assert!(matches!(ApiError::from_cluster(ClusterError::Transport), ApiError::InternalError));
    assert!(matches!(ApiError::from_auth(AuthError::Invalid), ApiError::Unauthorize));
}
