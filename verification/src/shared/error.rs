//! The failures of the service as a whole, and how grave each is.
use vstd::prelude::*;

verus! {

/// A failure of the service. Where a collaborator failed, the variant
/// holds its message.
#[derive(Debug)]
pub enum AppError {
    UnprocessableEntity(String),
    EntityNotFound(String),
    ValidationError(String),
    TransactionError(String),
    SpecificOperationError(String),
    NoRowsAffectedError(String),
    KeyValueStoreError(String),
    BcryptError(String),
    ConvertToUuidError(String),
    UnauthenticatedError,
    UnauthorizedError,
    ForbiddenOperation,
    ConversionEntityError(String),
}

impl AppError {
    /// The HTTP status of the failure, in contracts.
    pub open spec fn status(&self) -> u16 {
        match *self {
            AppError::UnprocessableEntity(_) => 422,
            AppError::EntityNotFound(_) => 404,
            AppError::ValidationError(_) | AppError::ConvertToUuidError(_) => 400,
            AppError::UnauthenticatedError | AppError::ForbiddenOperation => 403,
            AppError::UnauthorizedError => 401,
            AppError::TransactionError(_)
            | AppError::SpecificOperationError(_)
            | AppError::NoRowsAffectedError(_)
            | AppError::KeyValueStoreError(_)
            | AppError::BcryptError(_)
            | AppError::ConversionEntityError(_) => 500,
        }
    }

    /// The HTTP status of the failure.
    pub fn status_code(&self) -> (r: u16)
        ensures
            r == self.status(),
    {
        match self {
            AppError::UnprocessableEntity(_) => 422,
            AppError::EntityNotFound(_) => 404,
            AppError::ValidationError(_) | AppError::ConvertToUuidError(_) => 400,
            AppError::UnauthenticatedError | AppError::ForbiddenOperation => 403,
            AppError::UnauthorizedError => 401,
            AppError::TransactionError(_)
            | AppError::SpecificOperationError(_)
            | AppError::NoRowsAffectedError(_)
            | AppError::KeyValueStoreError(_)
            | AppError::BcryptError(_)
            | AppError::ConversionEntityError(_) => 500,
        }
    }

    /// Whether the failure is the service's own and is to be logged.
    pub fn is_unexpected(&self) -> (r: bool)
        ensures
            r == (self.status() == 500),
    {
        self.status_code() == 500
    }
}

pub type AppResult<T> = Result<T, AppError>;

} // verus!
