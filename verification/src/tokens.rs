//! Opaque 128-bit identifiers and their canonical text form.
//!
//! User ids and session tokens are fresh random 128-bit values. On the wire
//! (a cookie value, an RPC argument, a path segment) they travel in the
//! canonical hyphenated text form; parsing accepts the textual UUID forms
//! and nothing else.

use vstd::prelude::*;

verus! {

/// The 128-bit value a string denotes as a textual UUID, or `None` when it
/// is not one. The outcome depends on the string alone.
pub uninterp spec fn uuid_parse(s: Seq<char>) -> Option<u128>;

/// Relies on uuid's `Uuid::new_v4`: a fresh random identifier. Nothing is
/// assumed of the value; callers check for collisions where they matter.
#[verifier::external_body]
pub(crate) fn fresh_id() -> u128 {
    uuid::Uuid::new_v4().as_u128()
}

/// Relies on uuid's `Uuid::parse_str`: which textual forms are accepted, and
/// which value one denotes, depend on the string alone.
#[verifier::external_body]
pub(crate) fn parse_token(s: &str) -> (r: Option<u128>)
    ensures
        r == uuid_parse(s@),
{
    match uuid::Uuid::parse_str(s) {
        Ok(u) => Some(u.as_u128()),
        Err(_) => None,
    }
}

/// Relies on uuid's hyphenated `Display` form: 36 characters that
/// `Uuid::parse_str` maps back to the same value.
#[verifier::external_body]
pub(crate) fn token_to_string(t: u128) -> (r: String)
    ensures
        uuid_parse(r@) == Some(t),
        r@.len() == 36,
{
    uuid::Uuid::from_u128(t).to_string()
}

} // verus!
