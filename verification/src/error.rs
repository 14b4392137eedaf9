//! The application's error type and the HTTP answer each error gets.
use vstd::prelude::*;
use crate::text::string_of;

verus! {

/// The error type of `sqlx`, carried through as an opaque value.
#[verifier::external_type_specification]
#[verifier::external_body]
pub struct ExSqlxError(sqlx::Error);

/// Application error type for unified error handling across the app.
#[derive(Debug)]
pub enum AppError {
    /// Invalid input data (400 Bad Request).
    Validation(String),
    /// Wrong credentials and the like (400 Bad Request).
    Auth(String),
    /// A missing or foreign resource (404 Not Found).
    NotFound(String),
    /// A database failure (500 Internal Server Error).
    Database(sqlx::Error),
    /// Any other internal failure (500 Internal Server Error).
    Internal,
}

/// What an error is, with its message as characters and a database
/// failure's details left out.
pub enum ErrorView {
    Validation(Seq<char>),
    Auth(Seq<char>),
    NotFound(Seq<char>),
    Database,
    Internal,
}

impl View for AppError {
    type V = ErrorView;

    open spec fn view(&self) -> ErrorView {
        match self {
            AppError::Validation(m) => ErrorView::Validation(m@),
            AppError::Auth(m) => ErrorView::Auth(m@),
            AppError::NotFound(m) => ErrorView::NotFound(m@),
            AppError::Database(_) => ErrorView::Database,
            AppError::Internal => ErrorView::Internal,
        }
    }
}

/// A result with its error taken by its view.
pub open spec fn result_view<T>(r: Result<T, AppError>) -> Result<T, ErrorView> {
    match r {
        Ok(v) => Ok(v),
        Err(e) => Err(e@),
    }
}

/// The status and message of the JSON error answer `{"error": message}`.
pub struct ErrorReply {
    pub status: u16,
    pub message: String,
}

/// The status code an error is answered with.
pub open spec fn error_status(e: AppError) -> u16 {
    match e {
        AppError::Validation(_) => 400,
        AppError::Auth(_) => 400,
        AppError::NotFound(_) => 404,
        AppError::Database(_) => 500,
        AppError::Internal => 500,
    }
}

/// The message an error is answered with: the error's own text for the
/// client's errors, a fixed text for the server's (whose details stay hidden).
pub open spec fn error_message(e: AppError) -> Seq<char> {
    match e {
        AppError::Validation(m) => m@,
        AppError::Auth(m) => m@,
        AppError::NotFound(m) => m@,
        AppError::Database(_) => "Internal server error"@,
        AppError::Internal => "Internal server error"@,
    }
}

impl AppError {
    /// The answer for this error.
    pub fn into_response(self) -> (r: ErrorReply)
        ensures
            r.status == error_status(self),
            r.message@ == error_message(self),
    {
        match self {
            AppError::Validation(msg) => ErrorReply { status: 400, message: msg },
            AppError::Auth(msg) => ErrorReply { status: 400, message: msg },
            AppError::NotFound(msg) => ErrorReply { status: 404, message: msg },
            AppError::Database(_) => ErrorReply {
                status: 500,
                message: string_of("Internal server error"),
            },
            AppError::Internal => ErrorReply {
                status: 500,
                message: string_of("Internal server error"),
            },
        }
    }

    /// A validation error with the given message.
    pub fn validation(msg: &str) -> (r: AppError)
        ensures
            r matches AppError::Validation(m) && m@ == msg@,
    {
        AppError::Validation(string_of(msg))
    }

    /// An authentication error with the given message.
    pub fn auth(msg: &str) -> (r: AppError)
        ensures
            r matches AppError::Auth(m) && m@ == msg@,
    {
        AppError::Auth(string_of(msg))
    }

    /// A not-found error with the given message.
    pub fn not_found(msg: &str) -> (r: AppError)
        ensures
            r matches AppError::NotFound(m) && m@ == msg@,
    {
        AppError::NotFound(string_of(msg))
    }
}

} // verus!
