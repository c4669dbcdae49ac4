//! Errors of the API and the HTTP response each one is answered with.
use vstd::prelude::*;

verus! {

/// Why a request failed.
#[derive(Debug, Clone, PartialEq, Eq)]
pub enum AppError {
    BadRequest,
    Unauthorized,
    InvalidCredentials,
    NotFound,
    /// A conflict on a field: the field's name and a message.
    Conflict(String, String),
    InternalServerError,
    /// A failure of the database, with its description.
    Database(String),
    /// A field that failed validation: the field's name and a message.
    ValidationError(String, String),
    TokenMissing,
    ProfileNotFound,
    ArticleNotFound,
    ArticleForbidden,
}

/// How an error is answered: the HTTP status and a body
/// `{"errors": {field: [message]}}`.
#[derive(Debug, Clone, PartialEq, Eq)]
pub struct ErrorResponse {
    pub status: u16,
    pub field: String,
    pub message: String,
}

/// The status, the field and the message that answer `e`.
pub open spec fn error_response_of(e: AppError) -> (u16, Seq<char>, Seq<char>) {
    match e {
        AppError::BadRequest => (400, "body"@, "Bad request"@),
        AppError::Unauthorized => (401, "body"@, "Unauthorized"@),
        AppError::InvalidCredentials => (401, "credentials"@, "invalid"@),
        AppError::NotFound => (404, "body"@, "Not found"@),
        AppError::Conflict(field, message) => (409, field@, message@),
        AppError::InternalServerError => (500, "body"@, "Internal server error"@),
        AppError::Database(_) => (500, "body"@, "Database error"@),
        AppError::ValidationError(field, message) => (422, field@, message@),
        AppError::TokenMissing => (401, "token"@, "is missing"@),
        AppError::ProfileNotFound => (404, "profile"@, "not found"@),
        AppError::ArticleNotFound => (404, "article"@, "not found"@),
        AppError::ArticleForbidden => (403, "article"@, "forbidden"@),
    }
}

/// A row that must exist: a missing one is `NotFound`.
pub fn row_or_not_found<T>(found: Option<T>) -> (r: Result<T, AppError>)
    ensures
        match found {
            Some(row) => r == Ok::<T, AppError>(row),
            None => r matches Err(e) && e is NotFound,
        },
{
    match found {
        Some(row) => Ok(row),
        None => Err(AppError::NotFound),
    }
}

impl AppError {
    /// The response that answers this error. Every error is answered with a
    /// client-error or server-error status.
    pub fn into_response(self) -> (r: ErrorResponse)
        ensures
            (r.status, r.field@, r.message@) == error_response_of(self),
            400 <= r.status <= 599,
    {
        let (status, field, message): (u16, String, String) = match self {
            AppError::BadRequest => (400, "body".to_owned(), "Bad request".to_owned()),
            AppError::Unauthorized => (401, "body".to_owned(), "Unauthorized".to_owned()),
            AppError::InvalidCredentials => (401, "credentials".to_owned(), "invalid".to_owned()),
            AppError::NotFound => (404, "body".to_owned(), "Not found".to_owned()),
            AppError::Conflict(field, message) => (409, field, message),
            AppError::InternalServerError => (
                500,
                "body".to_owned(),
                "Internal server error".to_owned(),
            ),
            AppError::Database(_) => (500, "body".to_owned(), "Database error".to_owned()),
            AppError::ValidationError(field, message) => (422, field, message),
            AppError::TokenMissing => (401, "token".to_owned(), "is missing".to_owned()),
            AppError::ProfileNotFound => (404, "profile".to_owned(), "not found".to_owned()),
            AppError::ArticleNotFound => (404, "article".to_owned(), "not found".to_owned()),
            AppError::ArticleForbidden => (403, "article".to_owned(), "forbidden".to_owned()),
        };
        ErrorResponse { status, field, message }
    }
}

} // verus!
