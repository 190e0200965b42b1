//! The three recognized failure categories and their mapping to a uniform
//! HTTP response: a status code, a machine-readable error code and a
//! human-readable message. The mapper never leaks storage error details.

use vstd::prelude::*;

verus! {

/// What kind of failure the database layer reported: either the query
/// found no row where exactly one was expected, or anything else.
#[derive(Debug, PartialEq, Eq, Clone, Copy)]
pub enum DbErrorKind {
    RowNotFound,
    Other,
}

/// A failure of a notes operation: the resource was absent, the database
/// layer failed, or something else went wrong inside the service.
#[derive(Debug, PartialEq, Eq, Clone, Copy)]
pub enum AppError {
    NotFound,
    Db(DbErrorKind),
    Internal,
}

/// Outcome of a notes operation.
pub type AppResult<T> = Result<T, AppError>;

impl AppError {
    /// Whether the error is reported to the client as a missing resource:
    /// either an explicit not-found, or a no-row report from the database.
    pub open spec fn spec_is_not_found(self) -> bool {
        self == AppError::NotFound || self == AppError::Db(DbErrorKind::RowNotFound)
    }

    /// The HTTP status the error maps to.
    pub open spec fn spec_status(self) -> int {
        if self.spec_is_not_found() {
            404
        } else {
            500
        }
    }

    /// The machine-readable code of the JSON error body.
    pub open spec fn spec_code(self) -> Seq<char> {
        if self.spec_is_not_found() {
            "not_found"@
        } else if self is Db {
            "db_error"@
        } else {
            "internal"@
        }
    }

    /// The human-readable message of the JSON error body.
    pub open spec fn spec_message(self) -> Seq<char> {
        if self.spec_is_not_found() {
            "resource not found"@
        } else if self is Db {
            "database error"@
        } else {
            "internal server error"@
        }
    }

    /// Maps the error to the response the client sees: HTTP status, error
    /// code and message. Raw failure detail is never part of it.
    pub fn into_response(self) -> (r: (u16, &'static str, &'static str))
        ensures
            r.0 as int == self.spec_status(),
            r.1@ == self.spec_code(),
            r.2@ == self.spec_message(),
    {
        match self {
            AppError::NotFound => (404, "not_found", "resource not found"),
            AppError::Db(DbErrorKind::RowNotFound) => (404, "not_found", "resource not found"),
            AppError::Db(DbErrorKind::Other) => (500, "db_error", "database error"),
            AppError::Internal => (500, "internal", "internal server error"),
        }
    }
}

} // verus!
