//! Errors of the document store and of authentication.
use vstd::prelude::*;
use crate::value::ObjectId;

verus! {

/// What can go wrong in a document store operation.
#[derive(Debug)]
pub enum DatabaseError {
    /// An error reported by a real database driver, with its message.
    MongoDBApiError(String),
    /// An operation on a transaction failed, or a transaction was finished twice.
    TransactionError(String),
    /// A payload to insert already carries an identity.
    DocumentHasAlreadyAnId,
    /// The identity assigned on insertion is malformed or already in use.
    InvalidObjectId,
    /// An operation was attempted before connecting.
    ClientNotConnected,
    /// No document has the identity looked up.
    DocumentDoesNotExist(ObjectId),
    /// A document lacks a field or holds one of the wrong kind; names the cause.
    DocumentNotValid(String),
    /// The database service is not available.
    DatabaseServiceError(String),
    /// A backend operation failed or is not supported.
    DatabaseOperationError(String),
}

/// Result of a document store operation.
pub type DatabaseResult<T> = Result<T, DatabaseError>;

/// What a service of the application can fail with.
#[derive(Debug)]
pub enum ServiceAppError {
    InternalServerError(String),
    AuthorizationError(AuthError),
    AccessControlError(String),
    DatabaseError(DatabaseError),
    ResponseBuildError(String),
    DoesNotExist(String),
    InvalidRequest(String),
    ObjectStorageError(String),
    AppStateError(String),
}

/// Result of a service operation.
pub type ServiceResult<T> = Result<T, ServiceAppError>;

/// An error answered to an HTTP client, by the status it maps to.
#[derive(Debug)]
pub enum AppError {
    /// 422: the request body is not valid JSON; carries the reason.
    JsonRejection(String),
    /// 500: the message is logged, not shown.
    InternalServerError { msg: String, source_error: ServiceAppError },
    /// 401
    AuthorizationError(AuthError),
    /// 404
    DoesNotExist(String),
    /// 403
    AccessControlError(String),
    /// 400
    InvalidRequest(String),
}

/// Result of a facade operation.
pub type FacadeResult<T> = Result<T, AppError>;

/// What can go wrong when authenticating a request.
#[derive(Debug)]
pub enum AuthError {
    InternalServerError(String),
    WrongCredentials,
    MissingCredentials,
    TokenCreation,
    InvalidToken,
    InvalidApiKey,
}

impl AuthError {
    /// The HTTP status code and the message shown to the client.
    pub fn to_status_message(&self) -> (r: (u16, String))
        ensures
            r.0 == match self {
                AuthError::InternalServerError(_) => 500u16,
                AuthError::WrongCredentials => 401,
                AuthError::InvalidApiKey => 401,
                AuthError::MissingCredentials => 400,
                AuthError::TokenCreation => 500,
                AuthError::InvalidToken => 400,
            },
            r.1@ == match self {
                AuthError::InternalServerError(_) => "Internal server error"@,
                AuthError::WrongCredentials => "Wrong credentials"@,
                AuthError::InvalidApiKey => "Wrong credentials"@,
                AuthError::MissingCredentials => "Missing credentials"@,
                AuthError::TokenCreation => "Token creation error"@,
                AuthError::InvalidToken => "Invalid token"@,
            },
    {
        match self {
            AuthError::InternalServerError(_) => (500, "Internal server error".to_owned()),
            AuthError::WrongCredentials => (401, "Wrong credentials".to_owned()),
            AuthError::InvalidApiKey => (401, "Wrong credentials".to_owned()),
            AuthError::MissingCredentials => (400, "Missing credentials".to_owned()),
            AuthError::TokenCreation => (500, "Token creation error".to_owned()),
            AuthError::InvalidToken => (400, "Invalid token".to_owned()),
        }
    }
}

} // verus!
