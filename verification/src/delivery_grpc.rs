//! The session resolver on the internal RPC surface.
//!
//! One narrow method for other backend services: hand in a raw session id,
//! get back the id of the user it authorizes. A string that is no token at
//! all is an invalid argument — distinct from a well-formed token that is
//! absent or expired, which is not found. Only the identifier is returned,
//! never the user record: the caller applies its own authorization rules.

use vstd::prelude::*;

use crate::errors::RpcStatus;
use crate::sessions::{SessionEntry, SessionsRepo, resolve_session_spec};
use crate::tokens::{parse_token, uuid_parse};

verus! {

/// What the resolver answers: the user id the token resolves to at `now`;
/// `InvalidArgument` when the string is no token; `NotFound` when the token
/// is well formed but absent or expired.
pub open spec fn get_user_spec(sessions: Seq<SessionEntry>, raw: Seq<char>, now: i64) -> Result<
    u128,
    RpcStatus,
> {
    match uuid_parse(raw) {
        None => Err(RpcStatus::InvalidArgument),
        Some(t) => match resolve_session_spec(sessions, t, now) {
            Some(uid) => Ok(uid),
            None => Err(RpcStatus::NotFound),
        },
    }
}

/// Resolves a raw session id to the user it authorizes, exactly as
/// [`get_user_spec`] says. The lookup changes nothing and extends nothing.
pub fn get_user(sessions: &SessionsRepo, raw_session_id: &str, now: i64) -> (r: Result<
    u128,
    RpcStatus,
>)
    ensures
        r == get_user_spec(sessions@, raw_session_id@, now),
{
    match parse_token(raw_session_id) {
        None => Err(RpcStatus::InvalidArgument),
        Some(t) => {
            match sessions.resolve_session(t, now) {
                Ok(uid) => Ok(uid),
                Err(_) => Err(RpcStatus::NotFound),
            }
        },
    }
}

} // verus!
