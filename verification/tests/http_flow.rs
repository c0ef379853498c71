use auth_core::delivery_grpc;
use auth_core::delivery_http::{
    create_user, delete_user, get_user, login_user, logout_user, update_user, CookieAction,
    HttpReply, ResponseBody, SESSION_COOKIE_NAME,
};
use auth_core::errors::RpcStatus;
use auth_core::model::{RegisterRequest, UpdateUserRequest};
use auth_core::sessions::SessionsRepo;
use auth_core::users_repo::UserRepo;

fn req(email: &str, username: &str, password: &str) -> RegisterRequest {
    RegisterRequest {
        email: email.to_string(),
        username: username.to_string(),
        password: password.to_string(),
    }
}

fn cookie_of(reply: &HttpReply) -> String {
    match &reply.cookie {
        CookieAction::Issue(c) => c.clone(),
        _ => panic!("expected the reply to set the session cookie"),
    }
}

fn user_id_of(reply: &HttpReply) -> u128 {
    match &reply.body {
        ResponseBody::User(u) => u.id,
        _ => panic!("expected a user body"),
    }
}

#[test]
fn cookie_name_is_session_id() {
    assert_eq!(SESSION_COOKIE_NAME, "session_id");
}

#[test]
fn register_logout_resolve_round_trip() {
    let mut users = UserRepo::new();
    let mut sessions = SessionsRepo::new();
    let now = 1_000;

    let reply = create_user(&mut users, &mut sessions, &req("a@b.com", "alice", "secret1"), now);
    assert_eq!(reply.status, 201);
    match &reply.body {
        ResponseBody::User(u) => {
            assert_eq!(u.email, "a@b.com");
            assert_eq!(u.username, "alice");
        },
        _ => panic!("expected a user body"),
    }
    let cookie = cookie_of(&reply);
    let uid = user_id_of(&reply);

    // The freshly set cookie resolves to the new user over RPC.
    assert_eq!(delivery_grpc::get_user(&sessions, &cookie, now), Ok(uid));

    // Logout clears the cookie and revokes the session.
    let out = logout_user(&mut sessions, Some(&cookie), now + 1);
    assert_eq!(out.status, 200);
    assert!(matches!(out.cookie, CookieAction::Clear));

    // The old token now fails to resolve.
    assert_eq!(
        delivery_grpc::get_user(&sessions, &cookie, now + 2),
        Err(RpcStatus::NotFound)
    );
}

#[test]
fn logout_without_cookie_is_a_noop_success() {
    let mut sessions = SessionsRepo::new();
    let out = logout_user(&mut sessions, None, 0);
    assert_eq!(out.status, 200);
    assert!(matches!(out.cookie, CookieAction::Clear));
}

#[test]
fn logout_with_garbage_cookie_still_succeeds() {
    let mut sessions = SessionsRepo::new();
    let garbage = "definitely-not-a-token".to_string();
    let out = logout_user(&mut sessions, Some(&garbage), 0);
    assert_eq!(out.status, 200);
    assert!(matches!(out.cookie, CookieAction::Clear));
}

#[test]
fn duplicate_registration_is_a_conflict() {
    let mut users = UserRepo::new();
    let mut sessions = SessionsRepo::new();
    let first = create_user(&mut users, &mut sessions, &req("a@b.com", "alice", "secret1"), 0);
    assert_eq!(first.status, 201);
    let second = create_user(&mut users, &mut sessions, &req("a@b.com", "bob", "hunter42"), 1);
    assert_eq!(second.status, 409);
    assert!(matches!(second.cookie, CookieAction::Keep));
    match &second.body {
        ResponseBody::Error(m) => assert_eq!(m, "user already exists"),
        _ => panic!("expected an error body"),
    }
}

#[test]
fn malformed_registration_is_a_400() {
    let mut users = UserRepo::new();
    let mut sessions = SessionsRepo::new();
    let reply = create_user(&mut users, &mut sessions, &req("a@b.com", "alice", "short"), 0);
    assert_eq!(reply.status, 400);
    match &reply.body {
        ResponseBody::Error(m) => assert_eq!(m, "password must be at least 6 characters"),
        _ => panic!("expected an error body"),
    }
}

#[test]
fn login_sets_an_independent_session() {
    let mut users = UserRepo::new();
    let mut sessions = SessionsRepo::new();
    let registered = create_user(&mut users, &mut sessions, &req("a@b.com", "alice", "secret1"), 0);
    let first_cookie = cookie_of(&registered);
    let uid = user_id_of(&registered);

    let logged_in = login_user(
        &users,
        &mut sessions,
        &"a@b.com".to_string(),
        &"secret1".to_string(),
        5,
    );
    assert_eq!(logged_in.status, 200);
    let second_cookie = cookie_of(&logged_in);
    assert_ne!(first_cookie, second_cookie);

    // Both sessions are live and independent.
    assert_eq!(delivery_grpc::get_user(&sessions, &first_cookie, 6), Ok(uid));
    assert_eq!(delivery_grpc::get_user(&sessions, &second_cookie, 6), Ok(uid));
    logout_user(&mut sessions, Some(&first_cookie), 7);
    assert_eq!(
        delivery_grpc::get_user(&sessions, &first_cookie, 8),
        Err(RpcStatus::NotFound)
    );
    assert_eq!(delivery_grpc::get_user(&sessions, &second_cookie, 8), Ok(uid));
}

#[test]
fn login_failures_map_to_their_status_codes() {
    let mut users = UserRepo::new();
    let mut sessions = SessionsRepo::new();
    create_user(&mut users, &mut sessions, &req("a@b.com", "alice", "secret1"), 0);

    let wrong = login_user(
        &users,
        &mut sessions,
        &"a@b.com".to_string(),
        &"wrong-pass".to_string(),
        1,
    );
    assert_eq!(wrong.status, 401);
    match &wrong.body {
        ResponseBody::Error(m) => assert_eq!(m, "invalid credentials"),
        _ => panic!("expected an error body"),
    }

    let unknown = login_user(
        &users,
        &mut sessions,
        &"nobody@b.com".to_string(),
        &"whatever".to_string(),
        1,
    );
    assert_eq!(unknown.status, 404);
    match &unknown.body {
        ResponseBody::Error(m) => assert_eq!(m, "user not found"),
        _ => panic!("expected an error body"),
    }
}

#[test]
fn profile_read_is_open() {
    let mut users = UserRepo::new();
    let mut sessions = SessionsRepo::new();
    let reply = create_user(&mut users, &mut sessions, &req("a@b.com", "alice", "secret1"), 0);
    let uid = user_id_of(&reply);

    let found = get_user(&users, uid);
    assert_eq!(found.status, 200);
    let missing = get_user(&users, uid.wrapping_add(1));
    assert_eq!(missing.status, 404);
    match &missing.body {
        ResponseBody::NotFound(n) => assert_eq!(n.error, "user not found"),
        _ => panic!("expected the not-found body"),
    }
}

#[test]
fn update_demands_the_owning_session() {
    let mut users = UserRepo::new();
    let mut sessions = SessionsRepo::new();
    let reply = create_user(&mut users, &mut sessions, &req("a@b.com", "alice", "secret1"), 0);
    let cookie = cookie_of(&reply);
    let uid = user_id_of(&reply);
    let change = UpdateUserRequest { new_username: "alicia".to_string() };

    // No cookie: unauthorized, nothing changes.
    let denied = update_user(&mut users, &sessions, uid, &change, None, 1);
    assert_eq!(denied.status, 401);

    // A cookie of another user's session does not authorize this id.
    let other = create_user(&mut users, &mut sessions, &req("c@d.com", "carol", "secret2"), 2);
    let other_cookie = cookie_of(&other);
    let foreign = update_user(&mut users, &sessions, uid, &change, Some(&other_cookie), 3);
    assert_eq!(foreign.status, 401);

    // The owning session authorizes the update.
    let accepted = update_user(&mut users, &sessions, uid, &change, Some(&cookie), 4);
    assert_eq!(accepted.status, 200);
    match &accepted.body {
        ResponseBody::User(u) => {
            assert_eq!(u.username, "alicia");
            assert_eq!(u.updated_at, 4);
        },
        _ => panic!("expected a user body"),
    }
}

#[test]
fn delete_demands_the_owning_session() {
    let mut users = UserRepo::new();
    let mut sessions = SessionsRepo::new();
    let reply = create_user(&mut users, &mut sessions, &req("a@b.com", "alice", "secret1"), 0);
    let cookie = cookie_of(&reply);
    let uid = user_id_of(&reply);

    let denied = delete_user(&mut users, &sessions, uid, None, 1);
    assert_eq!(denied.status, 401);
    assert_eq!(get_user(&users, uid).status, 200);

    let accepted = delete_user(&mut users, &sessions, uid, Some(&cookie), 2);
    assert_eq!(accepted.status, 204);
    assert!(matches!(accepted.body, ResponseBody::Empty));
    assert_eq!(get_user(&users, uid).status, 404);

    // Deleting again with the same (still live) session finds nothing.
    let again = delete_user(&mut users, &sessions, uid, Some(&cookie), 3);
    assert_eq!(again.status, 404);
}

#[test]
fn rpc_distinguishes_malformed_from_absent_tokens() {
    let mut users = UserRepo::new();
    let mut sessions = SessionsRepo::new();
    let reply = create_user(&mut users, &mut sessions, &req("a@b.com", "alice", "secret1"), 0);
    let cookie = cookie_of(&reply);
    let uid = user_id_of(&reply);

    assert_eq!(
        delivery_grpc::get_user(&sessions, "not a uuid", 1),
        Err(RpcStatus::InvalidArgument)
    );
    assert_eq!(
        delivery_grpc::get_user(&sessions, "00000000-0000-0000-0000-000000000000", 1),
        Err(RpcStatus::NotFound)
    );
    assert_eq!(delivery_grpc::get_user(&sessions, &cookie, 1), Ok(uid));
}
