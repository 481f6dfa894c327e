//! Error taxonomy of the authentication core.
//!
//! Store errors are fine-grained and internal; the orchestrator maps
//! each of them to exactly one externally visible [`AuthAPIError`]
//! kind. In particular the login path collapses `UserNotFound` and
//! `InvalidCredentials` into the single outcome
//! `IncorrectCredentials`, so that the error code never reveals
//! whether an account exists.

use vstd::prelude::*;

verus! {

/// Externally visible outcome of a failed request.
#[derive(Debug, Clone, Copy, PartialEq, Eq, Structural)]
pub enum AuthAPIError {
    /// A submitted field was malformed; no store was touched.
    InvalidCredentials,
    /// The credentials or the challenge answer did not match.
    IncorrectCredentials,
    /// Signup for an email that already has an account.
    UserAlreadyExists,
    /// Logout without a session token.
    MissingToken,
    /// Logout with a token that is not an acceptable session token.
    InvalidToken,
    /// A store or external collaborator failed.
    UnexpectedError,
}

/// Failure of an account directory operation.
#[derive(Debug, Clone, Copy, PartialEq, Eq, Structural)]
pub enum UserStoreError {
    UserAlreadyExists,
    UserNotFound,
    InvalidCredentials,
    UnexpectedError,
}

/// Failure of a pending-challenge store operation.
#[derive(Debug, Clone, Copy, PartialEq, Eq, Structural)]
pub enum TwoFACodeStoreError {
    LoginAttemptIdNotFound,
    UnexpectedError,
}

/// Failure of a revoked-token registry operation.
#[derive(Debug, Clone, Copy, PartialEq, Eq, Structural)]
pub enum BannedTokenStoreError {
    UnexpectedError,
}

} // verus!
