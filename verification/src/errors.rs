//! Error taxonomy of the engine.
//!
//! Validation errors name the rejected field; domain errors are expected,
//! non-fatal outcomes that delivery layers map to client-facing status codes;
//! infrastructure failures carry no internal detail.

use vstd::prelude::*;

verus! {

/// Why a registration payload was rejected before any hashing or store work.
#[derive(Clone, Copy, Debug, PartialEq, Eq, Structural)]
pub enum ValidationIssue {
    /// The email is not a syntactically valid address.
    InvalidEmail,
    /// The username is empty.
    EmptyUsername,
    /// The password is shorter than the minimum length.
    PasswordTooShort,
}

/// Typed outcome of a failed write to the user store.
#[derive(Clone, Copy, Debug, PartialEq, Eq, Structural)]
pub enum DBError {
    /// The store already holds a user with this email.
    UniqueEmailViolation,
    /// The store already holds a user with this id.
    UniqueIdViolation,
}

/// Failure outcomes of the account usecase.
#[derive(Clone, Copy, Debug, PartialEq, Eq, Structural)]
pub enum UsecaseError {
    /// The request payload is malformed; the field tells which check failed.
    Validation(ValidationIssue),
    /// A user with the requested email is already registered.
    UserAlreadyExists,
    /// No user with the requested email exists.
    UserNotFound,
    /// The password does not match the stored credential.
    InvalidCredentials,
    /// The hashing primitive failed internally.
    HashingFailure,
    /// An unexpected store failure, surfaced without internal detail.
    Infrastructure,
}

/// Failure outcome of revoking or resolving a session.
#[derive(Clone, Copy, Debug, PartialEq, Eq, Structural)]
pub enum SessionError {
    /// The token is absent: never issued, already revoked, or expired.
    SessionNotFound,
}

/// Failure conditions of the internal RPC session resolver.
#[derive(Clone, Copy, Debug, PartialEq, Eq, Structural)]
pub enum RpcStatus {
    /// The raw session id is not a syntactically valid token.
    InvalidArgument,
    /// The token is well formed but absent or expired.
    NotFound,
}

/// The client-facing message of each usecase error.
pub open spec fn usecase_error_message(e: UsecaseError) -> Seq<char> {
    match e {
        UsecaseError::Validation(ValidationIssue::InvalidEmail) => "email is not a valid address"@,
        UsecaseError::Validation(ValidationIssue::EmptyUsername) => "username must not be empty"@,
        UsecaseError::Validation(ValidationIssue::PasswordTooShort) => (
            "password must be at least 6 characters"@
        ),
        UsecaseError::UserAlreadyExists => "user already exists"@,
        UsecaseError::UserNotFound => "user not found"@,
        UsecaseError::InvalidCredentials => "invalid credentials"@,
        UsecaseError::HashingFailure => "internal error"@,
        UsecaseError::Infrastructure => "internal error"@,
    }
}

impl UsecaseError {
    /// The uniform `{error: message}` text shown to a client for this error.
    pub fn message(&self) -> (r: String)
        ensures
            r@ == usecase_error_message(*self),
    {
        match self {
            UsecaseError::Validation(ValidationIssue::InvalidEmail) => (
                "email is not a valid address".to_owned()
            ),
            UsecaseError::Validation(ValidationIssue::EmptyUsername) => (
                "username must not be empty".to_owned()
            ),
            UsecaseError::Validation(ValidationIssue::PasswordTooShort) => (
                "password must be at least 6 characters".to_owned()
            ),
            UsecaseError::UserAlreadyExists => "user already exists".to_owned(),
            UsecaseError::UserNotFound => "user not found".to_owned(),
            UsecaseError::InvalidCredentials => "invalid credentials".to_owned(),
            UsecaseError::HashingFailure => "internal error".to_owned(),
            UsecaseError::Infrastructure => "internal error".to_owned(),
        }
    }
}

} // verus!
