//! The credential engine: password hashing and verification.
//!
//! Hashing derives a salted, algorithm-tagged PHC string from a plaintext
//! with a fresh random salt per call, so two calls on the same plaintext
//! never agree. Verification recomputes with the salt and parameters
//! embedded in the stored string; its outcome depends on the plaintext and
//! the stored string alone. Only this module sees a plaintext password
//! together with the primitive.

use vstd::prelude::*;

use crate::errors::UsecaseError;

verus! {

/// The outcome of checking a plaintext against a stored PHC string:
/// `Some(true)` on a match, `Some(false)` on a mismatch, `None` when the
/// stored string cannot be used as a hash at all. The outcome is a function
/// of the two strings alone.
pub uninterp spec fn argon2_check(password: Seq<char>, phc: Seq<char>) -> Option<bool>;

/// Relies on argon2's `PasswordHasher::hash_password`: hashing with a fresh
/// random salt yields a non-empty PHC string that verifies against the same
/// plaintext.
#[verifier::external_body]
fn argon2_hash(password: &str) -> (r: Option<String>)
    ensures
        r is Some ==> argon2_check(password@, r.unwrap()@) == Some(true),
        r is Some ==> r.unwrap()@.len() > 0,
{
    argon2::PasswordHasher::hash_password(&argon2::Argon2::default(), password.as_bytes())
        .ok()
        .map(|h| h.to_string())
}

/// Relies on argon2's `PasswordVerifier::verify_password`: it recomputes the
/// hash with the salt and parameters embedded in the PHC string and compares
/// in constant time; the outcome depends on the two strings alone. A
/// mismatch is reported apart from a string that cannot be used as a hash.
#[verifier::external_body]
fn argon2_verify(password: &str, phc: &str) -> (r: Option<bool>)
    ensures
        r == argon2_check(password@, phc@),
{
    let engine = argon2::Argon2::default();
    match argon2::PasswordVerifier::<str>::verify_password(&engine, password.as_bytes(), phc) {
        Ok(()) => Some(true),
        Err(argon2::password_hash::Error::PasswordInvalid) => Some(false),
        Err(_) => None,
    }
}

/// Derives the stored hash for a plaintext password. On success the hash is
/// non-empty, differs from the plaintext, and verifies against the
/// plaintext; the primitive failing internally is the only error.
pub fn hash_password(password: &String) -> (r: Result<String, UsecaseError>)
    ensures
        r is Ok ==> argon2_check(password@, r.unwrap()@) == Some(true),
        r is Ok ==> r.unwrap()@.len() > 0,
        r is Ok ==> r.unwrap()@ != password@,
        r is Err ==> r.unwrap_err() == UsecaseError::HashingFailure,
{
    match argon2_hash(password.as_str()) {
        Some(h) => {
            if h == *password {
                Err(UsecaseError::HashingFailure)
            } else {
                Ok(h)
            }
        },
        None => Err(UsecaseError::HashingFailure),
    }
}

/// Checks a plaintext against a stored hash. A mismatch returns `Ok(false)`,
/// not an error; a stored string that cannot be used as a hash is the
/// hashing failure.
pub fn verify_password(password: &String, phc: &String) -> (r: Result<bool, UsecaseError>)
    ensures
        r == match argon2_check(password@, phc@) {
            Some(b) => Ok::<bool, UsecaseError>(b),
            None => Err::<bool, UsecaseError>(UsecaseError::HashingFailure),
        },
{
    match argon2_verify(password.as_str(), phc.as_str()) {
        Some(b) => Ok(b),
        None => Err(UsecaseError::HashingFailure),
    }
}

} // verus!
