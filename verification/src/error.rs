//! Errors of the service and the HTTP status that answers each.

use crate::validation::ValidationReport;
use vstd::prelude::*;

verus! {

/// Status of a request that was served and answered with a body.
pub const STATUS_OK: u16 = 200;

/// Status of a request that stored a new sample.
pub const STATUS_CREATED: u16 = 201;

/// Status of a request that changed or removed a sample.
pub const STATUS_NO_CONTENT: u16 = 204;

/// Status of a request whose body breaks a rule.
pub const STATUS_BAD_REQUEST: u16 = 400;

/// Status of a request for a sample that is not stored.
pub const STATUS_NOT_FOUND: u16 = 404;

/// Status of a request that the database could not serve.
pub const STATUS_INTERNAL_SERVER_ERROR: u16 = 500;

/// What can go wrong while serving a request.
#[derive(Debug, PartialEq, Eq)]
pub enum AppError {
    /// The request's body breaks the field rules.
    ValidateError(ValidationReport),
    /// The requested sample is not stored; the text says which.
    EntityNotFound(String),
    /// The database refused a statement; the text is its message.
    SpecificOperationError(String),
    /// A statement that had to touch a row touched none.
    NoRowsAffectedError(String),
    /// The database could not open a transaction; the text is its message.
    TransactionError(String),
}

/// The result of a step of serving a request.
pub type AppResult<T> = Result<T, AppError>;

impl AppError {
    /// The HTTP status that answers this error.
    pub open spec fn status(&self) -> u16 {
        match self {
            AppError::ValidateError(_) => STATUS_BAD_REQUEST,
            AppError::EntityNotFound(_) => STATUS_NOT_FOUND,
            AppError::SpecificOperationError(_) => STATUS_INTERNAL_SERVER_ERROR,
            AppError::NoRowsAffectedError(_) => STATUS_INTERNAL_SERVER_ERROR,
            AppError::TransactionError(_) => STATUS_INTERNAL_SERVER_ERROR,
        }
    }

    /// The HTTP status that answers this error: 400 for a broken rule, 404
    /// for a missing sample, 500 for a failure of the database.
    pub fn status_code(&self) -> (r: u16)
        ensures
            r == self.status(),
    {
        match self {
            AppError::ValidateError(_) => STATUS_BAD_REQUEST,
            AppError::EntityNotFound(_) => STATUS_NOT_FOUND,
            AppError::SpecificOperationError(_) => STATUS_INTERNAL_SERVER_ERROR,
            AppError::NoRowsAffectedError(_) => STATUS_INTERNAL_SERVER_ERROR,
            AppError::TransactionError(_) => STATUS_INTERNAL_SERVER_ERROR,
        }
    }
}

/// No error is answered with a success: each status is a client error or
/// a server error.
pub proof fn lemma_error_status_is_failure(e: AppError)
    ensures
        400 <= e.status() < 600,
{
}

/// The status of an answer: the success status when the step succeeded,
/// else the status of its error.
pub open spec fn answer_status<T>(r: AppResult<T>, success: u16) -> u16 {
    match r {
        Ok(_) => success,
        Err(e) => e.status(),
    }
}

/// The status of an answer: `success` when the step succeeded, else the
/// status of its error.
pub fn status_of<T>(r: &AppResult<T>, success: u16) -> (s: u16)
    ensures
        s == answer_status(*r, success),
{
    match r {
        Ok(_) => success,
        Err(e) => e.status_code(),
    }
}

/// The statuses are the HTTP ones: a broken rule is answered 400, a
/// missing sample 404, a database failure 500; a success 200, 201 after a
/// create, 204 after a change or removal.
pub proof fn lemma_statuses(e: AppError)
    ensures
        STATUS_OK == 200,
        STATUS_CREATED == 201,
        STATUS_NO_CONTENT == 204,
        e is ValidateError ==> e.status() == 400,
        e is EntityNotFound ==> e.status() == 404,
        e is SpecificOperationError ==> e.status() == 500,
        e is NoRowsAffectedError ==> e.status() == 500,
        e is TransactionError ==> e.status() == 500,
{
}

/// A successful step is answered with the success status it was given,
/// and a failed one with its error's status.
pub proof fn lemma_answer_status<T>(r: AppResult<T>, success: u16)
    ensures
        r is Ok ==> answer_status(r, success) == success,
        r matches Err(e) ==> answer_status(r, success) == e.status(),
{
}

} // verus!
