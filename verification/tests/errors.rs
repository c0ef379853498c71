use auth_core::errors::{UsecaseError, ValidationIssue};
use auth_core::model::UserNotFoundResponse;

#[test]
fn every_error_has_its_client_message() {
    assert_eq!(
        UsecaseError::Validation(ValidationIssue::InvalidEmail).message(),
        "email is not a valid address"
    );
    assert_eq!(
        UsecaseError::Validation(ValidationIssue::EmptyUsername).message(),
        "username must not be empty"
    );
    assert_eq!(
        UsecaseError::Validation(ValidationIssue::PasswordTooShort).message(),
        "password must be at least 6 characters"
    );
    assert_eq!(UsecaseError::UserAlreadyExists.message(), "user already exists");
    assert_eq!(UsecaseError::UserNotFound.message(), "user not found");
    assert_eq!(UsecaseError::InvalidCredentials.message(), "invalid credentials");
    // Infrastructure failures leak no internal detail.
    assert_eq!(UsecaseError::HashingFailure.message(), "internal error");
    assert_eq!(UsecaseError::Infrastructure.message(), "internal error");
}

#[test]
fn the_not_found_body_is_uniform() {
    let body = UserNotFoundResponse::default();
    assert_eq!(body.error, "user not found");
}
