//! The identity record and the request/response shapes around it.
//!
//! Ids and session tokens are 128-bit values; the transport layers render
//! them in the canonical hyphenated text form. Timestamps are server-assigned
//! seconds. The password hash is an opaque, algorithm-tagged string that is
//! never equal to the plaintext it was derived from and is never serialized
//! to a client.

use vstd::prelude::*;

verus! {

/// An identity record.
#[derive(Debug)]
pub struct User {
    /// Globally unique, generated at creation, immutable.
    pub id: u128,
    /// Unique across all users, matched exactly.
    pub email: String,
    /// Mutable, non-unique display name.
    pub username: String,
    /// Opaque salted hash of the password; never a plaintext password.
    pub password_hash: String,
    /// Server-assigned creation time, in seconds.
    pub created_at: i64,
    /// Server-assigned time of the last update, in seconds.
    pub updated_at: i64,
}

impl Clone for User {
    fn clone(&self) -> (r: Self)
        ensures
            r == *self,
    {
        User {
            id: self.id,
            email: self.email.clone(),
            username: self.username.clone(),
            password_hash: self.password_hash.clone(),
            created_at: self.created_at,
            updated_at: self.updated_at,
        }
    }
}

/// The registration payload.
#[derive(Debug)]
pub struct RegisterRequest {
    /// The address the account will be reachable under.
    pub email: String,
    /// The display name; must not be empty.
    pub username: String,
    /// The plaintext password; leaves the engine only as a hash.
    pub password: String,
}

impl Clone for RegisterRequest {
    fn clone(&self) -> (r: Self)
        ensures
            r == *self,
    {
        RegisterRequest {
            email: self.email.clone(),
            username: self.username.clone(),
            password: self.password.clone(),
        }
    }
}

/// The payload of a profile update: only the username can change.
#[derive(Debug)]
pub struct UpdateUserRequest {
    /// The username that replaces the current one.
    pub new_username: String,
}

impl Clone for UpdateUserRequest {
    fn clone(&self) -> (r: Self)
        ensures
            r == *self,
    {
        UpdateUserRequest { new_username: self.new_username.clone() }
    }
}

/// The body returned when a user lookup finds nothing.
#[derive(Debug)]
pub struct UserNotFoundResponse {
    /// The uniform error message.
    pub error: String,
}

impl Default for UserNotFoundResponse {
    fn default() -> (r: Self)
        ensures
            r.error@ == "user not found"@,
    {
        UserNotFoundResponse { error: "user not found".to_owned() }
    }
}

/// The public representation of a user: every field of the record except
/// the password hash, which is never serialized.
#[derive(Debug)]
pub struct UserResponse {
    /// The user's id.
    pub id: u128,
    /// The user's email.
    pub email: String,
    /// The user's username.
    pub username: String,
    /// Creation time, in seconds.
    pub created_at: i64,
    /// Time of the last update, in seconds.
    pub updated_at: i64,
}

impl Clone for UserResponse {
    fn clone(&self) -> (r: Self)
        ensures
            r == *self,
    {
        UserResponse {
            id: self.id,
            email: self.email.clone(),
            username: self.username.clone(),
            created_at: self.created_at,
            updated_at: self.updated_at,
        }
    }
}

/// The public representation of a user, as a spec-level value.
pub open spec fn response_of(u: User) -> UserResponse {
    UserResponse {
        id: u.id,
        email: u.email,
        username: u.username,
        created_at: u.created_at,
        updated_at: u.updated_at,
    }
}

impl From<User> for UserResponse {
    fn from(u: User) -> (r: Self)
    {
        UserResponse {
            id: u.id,
            email: u.email,
            username: u.username,
            created_at: u.created_at,
            updated_at: u.updated_at,
        }
    }
}

impl vstd::std_specs::convert::FromSpecImpl<User> for UserResponse {
    open spec fn obeys_from_spec() -> bool {
        true
    }

    open spec fn from_spec(u: User) -> Self {
        response_of(u)
    }
}

} // verus!
