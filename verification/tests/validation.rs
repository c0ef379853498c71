use auth_core::errors::ValidationIssue;
use auth_core::model::RegisterRequest;
use auth_core::validate::{is_valid_email, validate_register, MIN_PASSWORD_LEN};

fn req(email: &str, username: &str, password: &str) -> RegisterRequest {
    RegisterRequest {
        email: email.to_string(),
        username: username.to_string(),
        password: password.to_string(),
    }
}

#[test]
fn accepts_plain_addresses() {
    assert!(is_valid_email("a@b.com"));
    assert!(is_valid_email("alice.smith@mail.example.org"));
    assert!(is_valid_email("a@b.c"));
}

#[test]
fn rejects_address_without_at() {
    assert!(!is_valid_email("ab.com"));
    assert!(!is_valid_email(""));
}

#[test]
fn rejects_address_without_domain_dot() {
    assert!(!is_valid_email("a@bcom"));
}

#[test]
fn rejects_empty_local_part() {
    assert!(!is_valid_email("@b.com"));
}

#[test]
fn rejects_two_ats() {
    assert!(!is_valid_email("a@@b.com"));
    assert!(!is_valid_email("a@b@c.com"));
}

#[test]
fn rejects_dot_at_domain_edges() {
    assert!(!is_valid_email("a@.com"));
    assert!(!is_valid_email("a@bcom."));
}

#[test]
fn minimum_password_length_is_six() {
    assert_eq!(MIN_PASSWORD_LEN, 6);
}

#[test]
fn validates_in_field_order() {
    assert_eq!(
        validate_register(&req("bad", "", "x")),
        Some(ValidationIssue::InvalidEmail)
    );
    assert_eq!(
        validate_register(&req("a@b.com", "", "x")),
        Some(ValidationIssue::EmptyUsername)
    );
    assert_eq!(
        validate_register(&req("a@b.com", "alice", "12345")),
        Some(ValidationIssue::PasswordTooShort)
    );
    assert_eq!(validate_register(&req("a@b.com", "alice", "123456")), None);
}
