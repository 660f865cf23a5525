use vstd::prelude::*;

verus! {

/// Errors that the service layer reports to its callers.
#[derive(Debug, Clone)]
pub enum AppError {
    NotFound(String),
    Validation(String),
    Conflict(String),
    Forbidden(String),
    Unauthorized,
    InvalidCredentials,
    Internal(String),
}

impl AppError {
    /// The message that the error carries (empty for the variants without one).
    pub open spec fn text(self) -> Seq<char> {
        match self {
            AppError::NotFound(m) => m@,
            AppError::Validation(m) => m@,
            AppError::Conflict(m) => m@,
            AppError::Forbidden(m) => m@,
            AppError::Internal(m) => m@,
            _ => Seq::empty(),
        }
    }
}

/// Result type of the service layer.
pub type AppResult<T> = Result<T, AppError>;

} // verus!
