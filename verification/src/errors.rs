//! The error taxonomy of the engine and of the store capabilities.
//!
//! Business outcomes (`UserAlreadyExists`, `InvalidCredentials`,
//! `IncorrectCredentials`, `MissingToken`, `InvalidToken`) are kept
//! apart from `UnexpectedError`, the catch-all for store or transport
//! failures, which carries an opaque diagnostic payload that callers
//! never inspect for control flow.

use vstd::prelude::*;

verus! {

/// The outcome of an engine operation when it does not succeed.
#[derive(Debug)]
pub enum AuthAPIError {
    /// Signup found the email already registered.
    UserAlreadyExists,
    /// An input failed format validation before any store was touched.
    InvalidCredentials,
    /// A well-formed credential, challenge id or code did not match.
    IncorrectCredentials,
    /// Logout was called without a bearer token.
    MissingToken,
    /// A bearer token failed the combined signature, expiry and
    /// revocation check.
    InvalidToken,
    /// A store or transport failure; the payload is diagnostic only.
    UnexpectedError(String),
}

impl AuthAPIError {
    /// The HTTP status code each outcome maps to.
    pub open spec fn spec_status_code(&self) -> u16 {
        match self {
            AuthAPIError::UserAlreadyExists => 409,
            AuthAPIError::InvalidCredentials => 400,
            AuthAPIError::IncorrectCredentials => 401,
            AuthAPIError::MissingToken => 400,
            AuthAPIError::InvalidToken => 401,
            AuthAPIError::UnexpectedError(_) => 500,
        }
    }

    /// The HTTP status code each outcome maps to.
    pub fn status_code(&self) -> (r: u16)
        ensures
            r == self.spec_status_code(),
    {
        match self {
            AuthAPIError::UserAlreadyExists => 409,
            AuthAPIError::InvalidCredentials => 400,
            AuthAPIError::IncorrectCredentials => 401,
            AuthAPIError::MissingToken => 400,
            AuthAPIError::InvalidToken => 401,
            AuthAPIError::UnexpectedError(_) => 500,
        }
    }

    /// The message body each outcome maps to.
    pub fn message(&self) -> (r: &'static str)
        ensures
            self is UserAlreadyExists ==> r@ == "User already exists"@,
            self is InvalidCredentials ==> r@ == "Invalid credentials"@,
            self is IncorrectCredentials ==> r@ == "Incorrect credentials"@,
            self is MissingToken ==> r@ == "Missing token"@,
            self is InvalidToken ==> r@ == "Invalid token"@,
            self is UnexpectedError ==> r@ == "Unexpected error"@,
    {
        match self {
            AuthAPIError::UserAlreadyExists => "User already exists",
            AuthAPIError::InvalidCredentials => "Invalid credentials",
            AuthAPIError::IncorrectCredentials => "Incorrect credentials",
            AuthAPIError::MissingToken => "Missing token",
            AuthAPIError::InvalidToken => "Invalid token",
            AuthAPIError::UnexpectedError(_) => "Unexpected error",
        }
    }
}

/// The wire shape of an error reply.
#[derive(Debug)]
pub struct ErrorResponse {
    pub error: String,
}

/// Failures of the credential store.
#[derive(Debug, Clone, Copy, PartialEq, Eq, Structural)]
pub enum UserStoreError {
    UserAlreadyExists,
    UserNotFound,
    InvalidCredentials,
    UnexpectedError,
}

/// Failures of the two-factor challenge store. `UnexpectedError`
/// carries a diagnostic payload; two values of it compare equal
/// whatever their payloads.
#[derive(Debug)]
pub enum TwoFACodeStoreError {
    LoginAttemptIdNotFound,
    UnexpectedError(String),
}

impl PartialEq for TwoFACodeStoreError {
    fn eq(&self, other: &Self) -> (r: bool) {
        match (self, other) {
            (
                TwoFACodeStoreError::LoginAttemptIdNotFound,
                TwoFACodeStoreError::LoginAttemptIdNotFound,
            ) => true,
            (TwoFACodeStoreError::UnexpectedError(_), TwoFACodeStoreError::UnexpectedError(_)) =>
                true,
            _ => false,
        }
    }
}

impl vstd::std_specs::cmp::PartialEqSpecImpl for TwoFACodeStoreError {
    open spec fn obeys_eq_spec() -> bool {
        true
    }

    open spec fn eq_spec(&self, other: &Self) -> bool {
        match (self, other) {
            (
                TwoFACodeStoreError::LoginAttemptIdNotFound,
                TwoFACodeStoreError::LoginAttemptIdNotFound,
            ) => true,
            (TwoFACodeStoreError::UnexpectedError(_), TwoFACodeStoreError::UnexpectedError(_)) =>
                true,
            _ => false,
        }
    }
}

/// Failures of the revoked-token store. The payload is diagnostic only.
#[derive(Debug)]
pub enum BannedTokenStoreError {
    UnexpectedError(String),
}

} // verus!
