//! The error kinds shared by every component.

use vstd::prelude::*;

verus! {

/// One tagged union for every failure the components report. Errors of the
/// libraries underneath are mapped to one of these where the call is made.
#[derive(Clone, Copy, Debug, PartialEq, Eq, Structural)]
pub enum AppError {
    /// Bad credentials at login. Never says which factor failed.
    AuthenticationFailed,
    /// No token, or an invalid, unknown or expired one, at request time.
    Unauthorized,
    /// The token is valid but the account it names no longer exists.
    Unauthenticated,
    /// Registration with an email that is already taken.
    DuplicateEmail,
    /// A mutating operation named an identity that does not exist.
    EntityNotFound,
    /// A malformed stored hash, or a fault inside the hasher.
    Hashing,
    /// The backing store could not be reached in time.
    StoreUnavailable,
    /// The backing store refused a write for another reason.
    Persistence,
    /// A stored identity or role string does not parse.
    Conversion,
}

pub type AppResult<T> = Result<T, AppError>;

/// How a call to one of the backing stores failed, as far as the service
/// tells failures apart.
#[derive(Clone, Copy, Debug, PartialEq, Eq, Structural)]
pub enum StoreFailure {
    /// The relational store refused a write on a uniqueness constraint.
    UniqueViolation,
    /// The relational store refused a statement for another reason.
    Rejected,
    /// The store did not answer: no connection, a broken one, or a timeout.
    Unreachable,
}

impl StoreFailure {
    /// The error that stands for this failure. A store that did not answer
    /// is an unavailable store, never a failed authentication.
    pub open spec fn spec_error(self) -> AppError {
        match self {
            StoreFailure::UniqueViolation => AppError::DuplicateEmail,
            StoreFailure::Rejected => AppError::Persistence,
            StoreFailure::Unreachable => AppError::StoreUnavailable,
        }
    }

    #[verifier::when_used_as_spec(spec_error)]
    pub fn error(self) -> (error: AppError)
        ensures
            error == self.spec_error(),
    {
        match self {
            StoreFailure::UniqueViolation => AppError::DuplicateEmail,
            StoreFailure::Rejected => AppError::Persistence,
            StoreFailure::Unreachable => AppError::StoreUnavailable,
        }
    }
}

impl AppError {
    /// The HTTP status that stands for this error at the request boundary.
    pub open spec fn spec_status_code(self) -> u16 {
        match self {
            AppError::AuthenticationFailed => 401,
            AppError::Unauthorized => 401,
            AppError::Unauthenticated => 403,
            AppError::DuplicateEmail => 409,
            AppError::EntityNotFound => 404,
            AppError::Hashing => 500,
            AppError::StoreUnavailable => 503,
            AppError::Persistence => 500,
            AppError::Conversion => 500,
        }
    }

    /// Whether the caller is to blame (a 4xx status) rather than the service.
    pub open spec fn spec_is_rejection(self) -> bool {
        400 <= self.spec_status_code() < 500
    }

    #[verifier::when_used_as_spec(spec_status_code)]
    pub fn status_code(self) -> (code: u16)
        ensures
            code == self.spec_status_code(),
    {
        match self {
            AppError::AuthenticationFailed => 401,
            AppError::Unauthorized => 401,
            AppError::Unauthenticated => 403,
            AppError::DuplicateEmail => 409,
            AppError::EntityNotFound => 404,
            AppError::Hashing => 500,
            AppError::StoreUnavailable => 503,
            AppError::Persistence => 500,
            AppError::Conversion => 500,
        }
    }

    #[verifier::when_used_as_spec(spec_is_rejection)]
    pub fn is_rejection(self) -> (rejected: bool)
        ensures
            rejected == self.spec_is_rejection(),
    {
        let code: u16 = self.status_code();
        400 <= code && code < 500
    }
}

/// A failed store call is never reported as a failed authentication: the two
/// stay apart for whoever watches the service.
pub proof fn store_failure_is_not_a_rejection()
    ensures
        !AppError::StoreUnavailable.spec_is_rejection(),
        forall|failure: StoreFailure|
            #[trigger] failure.spec_error() != AppError::AuthenticationFailed && failure.spec_error()
                != AppError::Unauthorized && failure.spec_error() != AppError::Unauthenticated,
        AppError::AuthenticationFailed.spec_is_rejection(),
        AppError::Unauthorized.spec_is_rejection(),
        AppError::StoreUnavailable.spec_status_code() != AppError::AuthenticationFailed.spec_status_code(),
{
}

} // verus!
