use vstd::prelude::*;

verus! {

/// The logical result of the confirmation workflow, before any mapping
/// to an HTTP status code.
#[derive(Clone, Copy, Debug, PartialEq, Eq, Structural)]
pub enum OutcomeCode {
    Success,
    BadRequest,
    Unauthorized,
    Conflict,
    InternalError,
}

/// The store operation during which a failure happened; kept so a log
/// entry can name the failing step precisely.
#[derive(Clone, Copy, Debug, PartialEq, Eq, Structural)]
pub enum StoreOperation {
    FetchSubscriberId,
    FetchStatus,
    UpdateStatus,
}

/// A failed interaction with the relational store. The underlying cause
/// stays with the caller that made the call; the workflow only needs to
/// know that the operation did not succeed.
#[derive(Clone, Copy, Debug, PartialEq, Eq, Structural)]
pub struct StoreFailure {
    pub operation: StoreOperation,
}

/// Everything that can stop a confirmation request short of success.
#[derive(Clone, Copy, Debug, PartialEq, Eq, Structural)]
pub enum ConfirmationError {
    /// The token failed input validation.
    InvalidToken,
    /// The token is well formed but no subscriber is associated with it.
    UnknownToken,
    /// The subscriber was already confirmed; confirming twice is a conflict.
    AlreadyConfirmed,
    /// A store interaction failed; the operation names the failing step.
    UnexpectedError(StoreOperation),
}

impl OutcomeCode {
    /// The HTTP status code that the boundary layer sends for this outcome.
    pub open spec fn spec_status_code(self) -> u16 {
        match self {
            OutcomeCode::Success => 200,
            OutcomeCode::BadRequest => 400,
            OutcomeCode::Unauthorized => 401,
            OutcomeCode::Conflict => 409,
            OutcomeCode::InternalError => 500,
        }
    }

    pub fn status_code(&self) -> (code: u16)
        ensures
            code == self.spec_status_code(),
    {
        match self {
            OutcomeCode::Success => 200,
            OutcomeCode::BadRequest => 400,
            OutcomeCode::Unauthorized => 401,
            OutcomeCode::Conflict => 409,
            OutcomeCode::InternalError => 500,
        }
    }
}

impl ConfirmationError {
    /// The workflow outcome that this error maps to.
    pub open spec fn spec_outcome(self) -> OutcomeCode {
        match self {
            ConfirmationError::InvalidToken => OutcomeCode::BadRequest,
            ConfirmationError::UnknownToken => OutcomeCode::Unauthorized,
            ConfirmationError::AlreadyConfirmed => OutcomeCode::Conflict,
            ConfirmationError::UnexpectedError(_) => OutcomeCode::InternalError,
        }
    }

    pub fn outcome(&self) -> (code: OutcomeCode)
        ensures
            code == self.spec_outcome(),
    {
        match self {
            ConfirmationError::InvalidToken => OutcomeCode::BadRequest,
            ConfirmationError::UnknownToken => OutcomeCode::Unauthorized,
            ConfirmationError::AlreadyConfirmed => OutcomeCode::Conflict,
            ConfirmationError::UnexpectedError(_) => OutcomeCode::InternalError,
        }
    }

    /// The HTTP status code for this error.
    pub fn status_code(&self) -> (code: u16)
        ensures
            code == self.spec_outcome().spec_status_code(),
    {
        self.outcome().status_code()
    }
}

} // verus!
