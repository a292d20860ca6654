//! The errors that a request can end in, the HTTP status and message that
//! answer each, and which of them answers each kind of database failure.

use vstd::prelude::*;

verus! {

/// An error answered to the client.
#[derive(Debug, Clone, Copy, PartialEq, Eq, Structural)]
pub enum AppError {
    /// The requested resource is not in the database.
    NotFound,
    /// Anything else that went wrong while serving the request.
    InternalServerError,
}

/// The kinds of database failure that the service tells apart.
#[derive(Debug, Clone, Copy, PartialEq, Eq, Structural)]
pub enum DbErrorKind {
    /// A query that expects a row returned none.
    RowNotFound,
    /// A column asked for by name is not in the result.
    ColumnNotFound,
    /// Any other failure (connection, protocol, decoding, ...).
    Other,
}

/// The error that a database failure of the given kind is answered with.
pub open spec fn app_error_for(kind: DbErrorKind) -> AppError {
    match kind {
        DbErrorKind::RowNotFound | DbErrorKind::ColumnNotFound => AppError::NotFound,
        DbErrorKind::Other => AppError::InternalServerError,
    }
}

/// The HTTP status code of each error.
pub open spec fn spec_status_code(e: AppError) -> u16 {
    match e {
        AppError::NotFound => 404,
        AppError::InternalServerError => 500,
    }
}

/// The message of each error, as the client reads it.
pub open spec fn spec_message(e: AppError) -> Seq<char> {
    match e {
        AppError::NotFound => "The requested resource was not found in the database"@,
        AppError::InternalServerError => "Internal Server Error"@,
    }
}

impl AppError {
    /// The HTTP status that answers this error.
    pub fn status_code(&self) -> (code: u16)
        ensures
            code == spec_status_code(*self),
    {
        match self {
            AppError::NotFound => 404,
            AppError::InternalServerError => 500,
        }
    }

    /// The message that the response body carries for this error.
    pub fn message(&self) -> (m: &'static str)
        ensures
            m@ == spec_message(*self),
    {
        match self {
            AppError::NotFound => "The requested resource was not found in the database",
            AppError::InternalServerError => "Internal Server Error",
        }
    }

    /// The error that answers a database failure of the given kind: a missing
    /// row or column is "not found", everything else an internal error.
    pub fn from_db_error_kind(kind: DbErrorKind) -> (e: AppError)
        ensures
            e == app_error_for(kind),
    {
        match kind {
            DbErrorKind::RowNotFound | DbErrorKind::ColumnNotFound => AppError::NotFound,
            DbErrorKind::Other => AppError::InternalServerError,
        }
    }
}

} // verus!
