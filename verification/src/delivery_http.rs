//! Session delivery over HTTP: binds the account usecase and the session
//! store to status codes, response bodies and the session cookie.
//!
//! A successful registration or login creates one fresh session and hands
//! the transport the token text to set as the cookie value; logout revokes
//! whatever token the cookie carries and always clears the cookie. The
//! profile reads stay open; update and delete demand a cookie whose session
//! resolves to the path id — the stricter of the two policies the behaviour
//! of this surface left open, chosen and documented here. Domain errors map
//! to their client-facing status codes; infrastructure failures to 500 with
//! no internal detail.

use vstd::prelude::*;

use crate::errors::{UsecaseError, usecase_error_message};
use crate::model::{
    RegisterRequest, UpdateUserRequest, UserNotFoundResponse, UserResponse, response_of,
};
use crate::sessions::{
    SessionEntry, SessionsRepo, create_session_spec, resolve_session_spec, revoke_session_spec,
};
use crate::tokens::{token_to_string, uuid_parse};
use crate::usecase::{login, login_spec, register};
use crate::users_repo::{
    UserRepo, delete_user_spec, email_taken, update_user_spec, user_by_id,
};
use crate::validate::validate_register_spec;
use crate::SESSION_TTL_SECS;

verus! {

/// The name under which the transport carries the session token.
pub const SESSION_COOKIE_NAME: &'static str = "session_id";

/// What a reply tells the transport to do with the session cookie.
pub enum CookieAction {
    /// Leave the cookie as it is.
    Keep,
    /// Set the cookie to this token text.
    Issue(String),
    /// Clear the cookie on the client.
    Clear,
}

/// The body of a reply.
pub enum ResponseBody {
    /// The public representation of a user.
    User(UserResponse),
    /// The uniform body of a missed user lookup.
    NotFound(UserNotFoundResponse),
    /// The uniform `{error: message}` body of every other failure.
    Error(String),
    /// No body.
    Empty,
}

/// A protocol-level reply: what the transport sends back.
pub struct HttpReply {
    /// The HTTP status code.
    pub status: u16,
    /// The body to serialize.
    pub body: ResponseBody,
    /// What to do with the session cookie.
    pub cookie: CookieAction,
}

/// Whether `cookie` carries a token that resolves to `id` at time `now`:
/// the authorization the mutating profile operations demand.
pub open spec fn cookie_authorizes(
    sessions: Seq<SessionEntry>,
    cookie: Option<&String>,
    id: u128,
    now: i64,
) -> bool {
    match cookie {
        Some(c) => match uuid_parse(c@) {
            Some(t) => resolve_session_spec(sessions, t, now) == Some(id),
            None => false,
        },
        None => false,
    }
}

/// Registers an account and opens its first session.
///
/// On success: 201, the public user representation, and the cookie set to a
/// token text that parses back to a token the session store resolves to the
/// new user for one ttl. A malformed payload is 400 with the field-scoped
/// message, a taken email is the 409 conflict, a hashing or store failure is
/// 500; every failure leaves both stores unchanged and the cookie alone.
pub fn create_user(
    users: &mut UserRepo,
    sessions: &mut SessionsRepo,
    req: &RegisterRequest,
    now: i64,
) -> (r: HttpReply)
    requires
        old(users).wf(),
        old(sessions).wf(),
        now + SESSION_TTL_SECS <= i64::MAX,
    ensures
        final(users).wf(),
        final(sessions).wf(),
        r.status == 201 || r.status == 400 || r.status == 409 || r.status == 500,
        r.status != 201 ==> final(users)@ == old(users)@ && final(sessions)@ == old(sessions)@
            && r.cookie is Keep,
        (r.status == 400) <==> validate_register_spec(*req) is Some,
        validate_register_spec(*req) matches Some(v) ==> (r.body matches ResponseBody::Error(m)
            && m@ == usecase_error_message(UsecaseError::Validation(v))),
        r.status == 409 ==> email_taken(old(users)@, req.email@) && (r.body
            matches ResponseBody::Error(m) && m@ == usecase_error_message(
            UsecaseError::UserAlreadyExists,
        )),
        validate_register_spec(*req) is None && email_taken(old(users)@, req.email@) ==> r.status
            == 409 || r.status == 500,
        r.status == 500 ==> (r.body matches ResponseBody::Error(m) && m@ == "internal error"@),
        r.status == 201 ==> ({
            let u = final(users)@.last();
            &&& final(users)@ == old(users)@.push(u)
            &&& !email_taken(old(users)@, req.email@)
            &&& u.email == req.email
            &&& u.username == req.username
            &&& u.created_at == now
            &&& u.updated_at == now
            &&& crate::credentials::argon2_check(req.password@, u.password_hash@) == Some(true)
            &&& u.password_hash@.len() > 0
            &&& u.password_hash@ != req.password@
            &&& r.body == ResponseBody::User(response_of(u))
            &&& (r.cookie matches CookieAction::Issue(c) && uuid_parse(c@) matches Some(t)
                && final(sessions)@ == create_session_spec(old(sessions)@, t, u.id, now)
                && resolve_session_spec(final(sessions)@, t, now) == Some(u.id))
        }),
{
    match register(users, req, now) {
        Ok(u) => {
            let token = sessions.create_session(u.id, now);
            let cookie_text = token_to_string(token);
            let body = UserResponse::from(u);
            HttpReply {
                status: 201,
                body: ResponseBody::User(body),
                cookie: CookieAction::Issue(cookie_text),
            }
        },
        Err(e) => {
            let status: u16 = match e {
                UsecaseError::Validation(_) => 400,
                UsecaseError::UserAlreadyExists => 409,
                _ => 500,
            };
            HttpReply {
                status,
                body: ResponseBody::Error(e.message()),
                cookie: CookieAction::Keep,
            }
        },
    }
}

/// Authenticates and opens a fresh session.
///
/// On a match: 200, the public user representation, and the cookie set as
/// registration sets it — one new independent session per login, prior
/// sessions untouched. An unknown email is 404, a mismatching password 401,
/// a hashing failure 500; every failure leaves the session store unchanged
/// and the cookie alone.
pub fn login_user(
    users: &UserRepo,
    sessions: &mut SessionsRepo,
    email: &String,
    password: &String,
    now: i64,
) -> (r: HttpReply)
    requires
        old(sessions).wf(),
        now + SESSION_TTL_SECS <= i64::MAX,
    ensures
        final(sessions).wf(),
        (r.status == 200) <==> login_spec(users@, email@, password@) is Ok,
        r.status != 200 ==> final(sessions)@ == old(sessions)@ && r.cookie is Keep,
        login_spec(users@, email@, password@) matches Err(e) ==> ({
            &&& r.status == (match e {
                UsecaseError::UserNotFound => 404u16,
                UsecaseError::InvalidCredentials => 401u16,
                _ => 500u16,
            })
            &&& (r.body matches ResponseBody::Error(m) && m@ == usecase_error_message(e))
        }),
        login_spec(users@, email@, password@) matches Ok(u) ==> ({
            &&& r.body == ResponseBody::User(response_of(u))
            &&& (r.cookie matches CookieAction::Issue(c) && uuid_parse(c@) matches Some(t)
                && final(sessions)@ == create_session_spec(old(sessions)@, t, u.id, now)
                && resolve_session_spec(final(sessions)@, t, now) == Some(u.id))
        }),
{
    match login(users, email, password) {
        Ok(u) => {
            let token = sessions.create_session(u.id, now);
            let cookie_text = token_to_string(token);
            let body = UserResponse::from(u);
            HttpReply {
                status: 200,
                body: ResponseBody::User(body),
                cookie: CookieAction::Issue(cookie_text),
            }
        },
        Err(e) => {
            let status: u16 = match e {
                UsecaseError::UserNotFound => 404,
                UsecaseError::InvalidCredentials => 401,
                _ => 500,
            };
            HttpReply {
                status,
                body: ResponseBody::Error(e.message()),
                cookie: CookieAction::Keep,
            }
        },
    }
}

/// Ends the session the cookie carries, if any, and always clears the
/// cookie: 200 in every case. An absent cookie, a cookie that is no token,
/// and a token that no longer resolves are all the intentional no-op — not
/// errors; a live token's mapping is removed from the store.
pub fn logout_user(sessions: &mut SessionsRepo, cookie: Option<&String>, now: i64) -> (r:
    HttpReply)
    requires
        old(sessions).wf(),
    ensures
        final(sessions).wf(),
        r.status == 200,
        r.body is Empty,
        r.cookie is Clear,
        match cookie {
            Some(c) => match uuid_parse(c@) {
                Some(t) => final(sessions)@ == revoke_session_spec(old(sessions)@, t, now),
                None => final(sessions)@ == old(sessions)@,
            },
            None => final(sessions)@ == old(sessions)@,
        },
{
    match cookie {
        Some(c) => {
            match crate::tokens::parse_token(c.as_str()) {
                Some(t) => {
                    let _revoked = sessions.revoke_session(t, now);
                },
                None => {},
            }
        },
        None => {},
    }
    HttpReply { status: 200, body: ResponseBody::Empty, cookie: CookieAction::Clear }
}

/// Reads a user by id: 200 with the public representation, or 404 with the
/// uniform not-found body. The read is open, as the surface leaves it.
pub fn get_user(users: &UserRepo, id: u128) -> (r: HttpReply)
    ensures
        r.cookie is Keep,
        match user_by_id(users@, id) {
            Some(u) => r.status == 200 && r.body == ResponseBody::User(response_of(u)),
            None => r.status == 404 && (r.body matches ResponseBody::NotFound(n) && n.error@
                == "user not found"@),
        },
{
    match users.get_user(id) {
        Some(u) => HttpReply {
            status: 200,
            body: ResponseBody::User(UserResponse::from(u)),
            cookie: CookieAction::Keep,
        },
        None => HttpReply {
            status: 404,
            body: ResponseBody::NotFound(UserNotFoundResponse::default()),
            cookie: CookieAction::Keep,
        },
    }
}

/// Replaces a user's username, demanding a session of that very user: a
/// cookie that does not resolve to the path id is 401 and changes nothing;
/// with authorization, 200 with the updated representation, or 404 when the
/// id is gone.
pub fn update_user(
    users: &mut UserRepo,
    sessions: &SessionsRepo,
    id: u128,
    req: &UpdateUserRequest,
    cookie: Option<&String>,
    now: i64,
) -> (r: HttpReply)
    requires
        old(users).wf(),
    ensures
        final(users).wf(),
        r.cookie is Keep,
        !cookie_authorizes(sessions@, cookie, id, now) ==> r.status == 401
            && final(users)@ == old(users)@ && (r.body matches ResponseBody::Error(m) && m@
            == "not authorized"@),
        cookie_authorizes(sessions@, cookie, id, now) ==> ({
            &&& final(users)@ == update_user_spec(old(users)@, id, req.new_username, now).0
            &&& match update_user_spec(old(users)@, id, req.new_username, now).1 {
                Some(u) => r.status == 200 && r.body == ResponseBody::User(response_of(u)),
                None => r.status == 404 && (r.body matches ResponseBody::NotFound(n) && n.error@
                    == "user not found"@),
            }
        }),
{
    if !session_matches(sessions, cookie, id, now) {
        return HttpReply {
            status: 401,
            body: ResponseBody::Error("not authorized".to_owned()),
            cookie: CookieAction::Keep,
        };
    }
    match users.update_user(id, req.new_username.clone(), now) {
        Some(u) => HttpReply {
            status: 200,
            body: ResponseBody::User(UserResponse::from(u)),
            cookie: CookieAction::Keep,
        },
        None => HttpReply {
            status: 404,
            body: ResponseBody::NotFound(UserNotFoundResponse::default()),
            cookie: CookieAction::Keep,
        },
    }
}

/// Deletes a user, demanding a session of that very user: 401 without it,
/// 204 with no body when the record existed, 404 when it did not.
pub fn delete_user(
    users: &mut UserRepo,
    sessions: &SessionsRepo,
    id: u128,
    cookie: Option<&String>,
    now: i64,
) -> (r: HttpReply)
    requires
        old(users).wf(),
    ensures
        final(users).wf(),
        r.cookie is Keep,
        !cookie_authorizes(sessions@, cookie, id, now) ==> r.status == 401
            && final(users)@ == old(users)@ && (r.body matches ResponseBody::Error(m) && m@
            == "not authorized"@),
        cookie_authorizes(sessions@, cookie, id, now) ==> ({
            &&& final(users)@ == delete_user_spec(old(users)@, id).0
            &&& if delete_user_spec(old(users)@, id).1 {
                r.status == 204 && r.body is Empty
            } else {
                r.status == 404 && (r.body matches ResponseBody::NotFound(n) && n.error@
                    == "user not found"@)
            }
        }),
{
    if !session_matches(sessions, cookie, id, now) {
        return HttpReply {
            status: 401,
            body: ResponseBody::Error("not authorized".to_owned()),
            cookie: CookieAction::Keep,
        };
    }
    if users.delete_user(id) {
        HttpReply { status: 204, body: ResponseBody::Empty, cookie: CookieAction::Keep }
    } else {
        HttpReply {
            status: 404,
            body: ResponseBody::NotFound(UserNotFoundResponse::default()),
            cookie: CookieAction::Keep,
        }
    }
}

/// Whether the cookie carries a token that resolves to `id` at time `now`.
fn session_matches(
    sessions: &SessionsRepo,
    cookie: Option<&String>,
    id: u128,
    now: i64,
) -> (r: bool)
    ensures
        r == cookie_authorizes(sessions@, cookie, id, now),
{
    match cookie {
        Some(c) => {
            match crate::tokens::parse_token(c.as_str()) {
                Some(t) => {
                    match sessions.resolve_session(t, now) {
                        Ok(uid) => uid == id,
                        Err(_) => false,
                    }
                },
                None => false,
            }
        },
        None => false,
    }
}

} // verus!
