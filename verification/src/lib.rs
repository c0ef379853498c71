//! Credential-and-session lifecycle engine.
//!
//! Registers accounts, authenticates credentials, and maintains short-lived
//! session tokens that both an HTTP surface and an internal RPC surface can
//! resolve back to a user identity.

use vstd::prelude::*;

pub mod credentials;
pub mod delivery_grpc;
pub mod delivery_http;
pub mod errors;
pub mod model;
pub mod sessions;
pub mod tokens;
pub mod usecase;
pub mod users_repo;
pub mod validate;

verus! {

/// Fixed lifetime of a session, in seconds, measured from its creation.
pub const SESSION_TTL_SECS: i64 = 86400;

} // verus!
