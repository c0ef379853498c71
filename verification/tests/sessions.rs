use auth_core::errors::SessionError;
use auth_core::sessions::SessionsRepo;
use auth_core::SESSION_TTL_SECS;

#[test]
fn a_fresh_token_resolves_to_the_issuing_user() {
    let mut sessions = SessionsRepo::new();
    let token = sessions.create_session(42, 1_000);
    assert_eq!(sessions.resolve_session(token, 1_000), Ok(42));
}

#[test]
fn a_revoked_token_no_longer_resolves() {
    let mut sessions = SessionsRepo::new();
    let token = sessions.create_session(42, 1_000);
    assert_eq!(sessions.revoke_session(token, 1_001), Ok(()));
    assert_eq!(
        sessions.resolve_session(token, 1_002),
        Err(SessionError::SessionNotFound)
    );
}

#[test]
fn revoking_an_unknown_token_is_not_found() {
    let mut sessions = SessionsRepo::new();
    assert_eq!(
        sessions.revoke_session(7, 0),
        Err(SessionError::SessionNotFound)
    );
}

#[test]
fn revoking_twice_reports_not_found_the_second_time() {
    let mut sessions = SessionsRepo::new();
    let token = sessions.create_session(42, 1_000);
    assert_eq!(sessions.revoke_session(token, 1_001), Ok(()));
    assert_eq!(
        sessions.revoke_session(token, 1_002),
        Err(SessionError::SessionNotFound)
    );
}

#[test]
fn a_token_lives_exactly_until_its_ttl() {
    let mut sessions = SessionsRepo::new();
    let created = 1_000;
    let token = sessions.create_session(42, created);
    assert_eq!(sessions.resolve_session(token, created), Ok(42));
    assert_eq!(
        sessions.resolve_session(token, created + SESSION_TTL_SECS - 1),
        Ok(42)
    );
    assert_eq!(
        sessions.resolve_session(token, created + SESSION_TTL_SECS),
        Err(SessionError::SessionNotFound)
    );
    assert_eq!(
        sessions.resolve_session(token, created + SESSION_TTL_SECS + 1),
        Err(SessionError::SessionNotFound)
    );
}

#[test]
fn an_expired_token_cannot_be_revoked() {
    let mut sessions = SessionsRepo::new();
    let created = 1_000;
    let token = sessions.create_session(42, created);
    assert_eq!(
        sessions.revoke_session(token, created + SESSION_TTL_SECS),
        Err(SessionError::SessionNotFound)
    );
}

#[test]
fn sessions_of_one_user_are_independent() {
    let mut sessions = SessionsRepo::new();
    let first = sessions.create_session(42, 1_000);
    let second = sessions.create_session(42, 1_005);
    assert_ne!(first, second);
    assert_eq!(sessions.revoke_session(first, 1_010), Ok(()));
    assert_eq!(sessions.resolve_session(second, 1_010), Ok(42));
}

#[test]
fn tokens_carry_their_own_user() {
    let mut sessions = SessionsRepo::new();
    let for_a = sessions.create_session(1, 0);
    let for_b = sessions.create_session(2, 0);
    assert_eq!(sessions.resolve_session(for_a, 1), Ok(1));
    assert_eq!(sessions.resolve_session(for_b, 1), Ok(2));
}
