use auth_core::credentials::{hash_password, verify_password};
use auth_core::errors::UsecaseError;

#[test]
fn hash_is_nonempty_and_differs_from_plaintext() {
    let password = "secret1".to_string();
    let hash = hash_password(&password).unwrap();
    assert!(!hash.is_empty());
    assert_ne!(hash, password);
}

#[test]
fn hashing_twice_never_repeats() {
    let password = "secret1".to_string();
    let first = hash_password(&password).unwrap();
    let second = hash_password(&password).unwrap();
    assert_ne!(first, second);
}

#[test]
fn correct_password_verifies() {
    let password = "hunter42".to_string();
    let hash = hash_password(&password).unwrap();
    assert_eq!(verify_password(&password, &hash), Ok(true));
}

#[test]
fn wrong_password_does_not_verify() {
    let password = "hunter42".to_string();
    let hash = hash_password(&password).unwrap();
    let wrong = "hunter43".to_string();
    assert_eq!(verify_password(&wrong, &hash), Ok(false));
}

#[test]
fn malformed_stored_hash_is_a_hashing_failure() {
    let password = "hunter42".to_string();
    let not_a_hash = "plainly not a phc string".to_string();
    assert_eq!(
        verify_password(&password, &not_a_hash),
        Err(UsecaseError::HashingFailure)
    );
}
