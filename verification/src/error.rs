use vstd::prelude::*;

verus! {

/// Errors raised by the service, grouped by how a caller should react.
#[derive(Debug, Clone, PartialEq, Eq)]
pub enum AppError {
    /// The requested record does not exist.
    NotFound(String),
    /// The request is malformed or breaks a business rule.
    BadRequest(String),
    /// An invariant of the service's own data did not hold.
    Internal(String),
    /// The service was started with settings it cannot use.
    Configuration(String),
    /// The database refused or failed an operation.
    Database(String),
}

/// HTTP status that each kind of error is answered with.
pub open spec fn status_of(error: AppError) -> u16 {
    match error {
        AppError::NotFound(_) => 404,
        AppError::BadRequest(_) => 400,
        _ => 500,
    }
}

impl AppError {
    /// The HTTP status code this error is answered with: 404 for a missing
    /// record, 400 for a refused request, 500 for everything else.
    pub fn http_status(&self) -> (code: u16)
        ensures
            code == status_of(*self),
    {
        match self {
            AppError::NotFound(_) => 404,
            AppError::BadRequest(_) => 400,
            _ => 500,
        }
    }

    /// The human-readable message carried by the error.
    pub fn message(&self) -> (text: String)
        ensures
            text@ == self.message_view(),
    {
        match self {
            AppError::NotFound(m) => m.clone(),
            AppError::BadRequest(m) => m.clone(),
            AppError::Internal(m) => m.clone(),
            AppError::Configuration(m) => m.clone(),
            AppError::Database(m) => m.clone(),
        }
    }

    /// The message carried by the error, as characters.
    pub open spec fn message_view(self) -> Seq<char> {
        match self {
            AppError::NotFound(m) => m@,
            AppError::BadRequest(m) => m@,
            AppError::Internal(m) => m@,
            AppError::Configuration(m) => m@,
            AppError::Database(m) => m@,
        }
    }
}

} // verus!
