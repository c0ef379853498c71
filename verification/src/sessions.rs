//! The session store: an opaque token maps to the user it authorizes, for a
//! fixed time.
//!
//! A session is created on a successful registration or login, carries the
//! issuing user's id, and lives for [`crate::SESSION_TTL_SECS`] seconds from
//! its creation. Resolving never extends the lifetime; a token resolves
//! exactly while the current time is before its expiry. Revocation removes
//! the mapping and reports a token that is absent or already expired as
//! [`SessionError::SessionNotFound`], a non-fatal domain condition.

use vstd::prelude::*;

use crate::SESSION_TTL_SECS;
use crate::errors::SessionError;
use crate::tokens::fresh_id;

verus! {

/// One mapping of the store: a token, the user it authorizes, and the
/// moment the mapping lapses.
#[derive(Clone, Copy, Debug, PartialEq, Eq, Structural)]
pub struct SessionEntry {
    /// The opaque capability value.
    pub token: u128,
    /// The user the token authorizes.
    pub user_id: u128,
    /// The first moment, in seconds, at which the token no longer resolves.
    pub expires_at: i64,
}

/// The first position at or behind `from` whose entry carries `token`.
pub open spec fn token_index_from(s: Seq<SessionEntry>, token: u128, from: int) -> Option<int>
    decreases s.len() - from,
{
    if from < 0 || from >= s.len() {
        None
    } else if s[from].token == token {
        Some(from)
    } else {
        token_index_from(s, token, from + 1)
    }
}

/// The position of `token` in the store, if any.
pub open spec fn token_index(s: Seq<SessionEntry>, token: u128) -> Option<int> {
    token_index_from(s, token, 0)
}

/// No two entries carry the same token.
pub open spec fn sessions_wf(s: Seq<SessionEntry>) -> bool {
    forall|i: int, j: int| 0 <= i < j < s.len() ==> s[i].token != s[j].token
}

/// `r` is the first position at or behind `from` carrying `token`, or there
/// is none.
pub open spec fn is_first_token_match(
    s: Seq<SessionEntry>,
    token: u128,
    from: int,
    r: Option<int>,
) -> bool {
    match r {
        Some(j) => {
            &&& from <= j < s.len()
            &&& s[j].token == token
            &&& forall|k: int| from <= k < j ==> s[k].token != token
        },
        None => forall|k: int| from <= k < s.len() ==> s[k].token != token,
    }
}

proof fn lemma_token_index_from(s: Seq<SessionEntry>, token: u128, from: int)
    requires
        0 <= from,
    ensures
        is_first_token_match(s, token, from, token_index_from(s, token, from)),
    decreases s.len() - from,
{
    if from < s.len() && s[from].token != token {
        lemma_token_index_from(s, token, from + 1);
    }
}

proof fn lemma_first_token_match_unique(
    s: Seq<SessionEntry>,
    token: u128,
    from: int,
    r1: Option<int>,
    r2: Option<int>,
)
    requires
        is_first_token_match(s, token, from, r1),
        is_first_token_match(s, token, from, r2),
    ensures
        r1 == r2,
{
    if r1 is Some && r2 is Some {
        let a = r1.unwrap();
        let b = r2.unwrap();
        if a < b {
            assert(s[a].token != token);
        } else if b < a {
            assert(s[b].token != token);
        }
    } else if r1 is Some {
        assert(s[r1.unwrap()].token != token);
    } else if r2 is Some {
        assert(s[r2.unwrap()].token != token);
    }
}

/// A witness that `r` is the first match settles what `token_index` is.
proof fn lemma_token_index_eq(s: Seq<SessionEntry>, token: u128, r: Option<int>)
    requires
        is_first_token_match(s, token, 0, r),
    ensures
        token_index(s, token) == r,
{
    lemma_token_index_from(s, token, 0);
    lemma_first_token_match_unique(s, token, 0, token_index(s, token), r);
}

/// The entry a fresh session writes: it lapses one ttl after `now`.
pub open spec fn session_entry(token: u128, user_id: u128, now: i64) -> SessionEntry {
    SessionEntry { token, user_id, expires_at: (now + SESSION_TTL_SECS) as i64 }
}

/// What the store holds after a session for `user_id` is created under
/// `token` at time `now`: the entry is written whether or not the token was
/// present, as a keyed cache write does.
pub open spec fn create_session_spec(
    s: Seq<SessionEntry>,
    token: u128,
    user_id: u128,
    now: i64,
) -> Seq<SessionEntry> {
    match token_index(s, token) {
        Some(i) => s.update(i, session_entry(token, user_id, now)),
        None => s.push(session_entry(token, user_id, now)),
    }
}

/// The user a token resolves to at time `now`: the one it maps to, as long
/// as `now` lies strictly before the expiry.
pub open spec fn resolve_session_spec(s: Seq<SessionEntry>, token: u128, now: i64) -> Option<
    u128,
> {
    match token_index(s, token) {
        Some(i) => if now < s[i].expires_at {
            Some(s[i].user_id)
        } else {
            None
        },
        None => None,
    }
}

/// Whether `token` resolves at all at time `now`.
pub open spec fn session_live(s: Seq<SessionEntry>, token: u128, now: i64) -> bool {
    resolve_session_spec(s, token, now) is Some
}

/// What the store holds after `token` is revoked at time `now`: the mapping
/// is removed if it was live, and nothing changes otherwise.
pub open spec fn revoke_session_spec(s: Seq<SessionEntry>, token: u128, now: i64) -> Seq<
    SessionEntry,
> {
    match token_index(s, token) {
        Some(i) => if now < s[i].expires_at {
            s.remove(i)
        } else {
            s
        },
        None => s,
    }
}

/// The session store. Tokens are unique across live and lapsed entries;
/// lapsed entries are indistinguishable from absent ones to every caller.
pub struct SessionsRepo {
    entries: Vec<SessionEntry>,
}

impl View for SessionsRepo {
    type V = Seq<SessionEntry>;

    closed spec fn view(&self) -> Seq<SessionEntry> {
        self.entries@
    }
}

impl SessionsRepo {
    /// No two entries carry the same token.
    pub open spec fn wf(&self) -> bool {
        sessions_wf(self@)
    }

    /// An empty store.
    pub fn new() -> (r: Self)
        ensures
            r@ == Seq::<SessionEntry>::empty(),
            r.wf(),
    {
        SessionsRepo { entries: Vec::new() }
    }

    fn index_of_token(&self, token: u128) -> (r: Option<usize>)
        ensures
            match r {
                Some(i) => {
                    &&& i < self@.len()
                    &&& self@[i as int].token == token
                    &&& token_index(self@, token) == Some(i as int)
                },
                None => token_index(self@, token) is None,
            },
    {
        let n = self.entries.len();
        let mut i: usize = 0;
        while i < n
            invariant
                n == self@.len(),
                i <= n,
                token_index(self@, token) == token_index_from(self@, token, i as int),
            decreases n - i,
        {
            if self.entries[i].token == token {
                return Some(i);
            }
            i += 1;
        }
        None
    }

    /// Issues a fresh token for `user_id`, valid for one ttl from `now`.
    /// The freshly drawn token overwrites an equal stored token if one
    /// exists, as the backing keyed cache would; every other session is
    /// untouched.
    pub fn create_session(&mut self, user_id: u128, now: i64) -> (token: u128)
        requires
            old(self).wf(),
            now + SESSION_TTL_SECS <= i64::MAX,
        ensures
            final(self).wf(),
            final(self)@ == create_session_spec(old(self)@, token, user_id, now),
            resolve_session_spec(final(self)@, token, now) == Some(user_id),
    {
        let token = fresh_id();
        let entry = SessionEntry { token, user_id, expires_at: now + SESSION_TTL_SECS };
        let found = self.index_of_token(token);
        proof {
            lemma_token_index_from(old(self)@, token, 0);
        }
        match found {
            Some(i) => {
                self.entries[i] = entry;
                proof {
                    let s0 = old(self)@;
                    let s1 = self@;
                    assert forall|a: int, b: int| 0 <= a < b < s1.len() implies s1[a].token
                        != s1[b].token by {
                        assert(s0[a].token != s0[b].token);
                        assert(s0[i as int].token == token);
                    }
                    assert(is_first_token_match(s1, token, 0, Some(i as int)));
                    lemma_token_index_eq(s1, token, Some(i as int));
                }
            },
            None => {
                self.entries.push(entry);
                proof {
                    let s0 = old(self)@;
                    let s1 = self@;
                    assert(is_first_token_match(s1, token, 0, Some(s0.len() as int)));
                    lemma_token_index_eq(s1, token, Some(s0.len() as int));
                }
            },
        }
        token
    }

    /// Resolves `token` at time `now` to the user it authorizes; a token
    /// that was never issued, was revoked, or has lapsed is not found. The
    /// lookup extends nothing.
    pub fn resolve_session(&self, token: u128, now: i64) -> (r: Result<u128, SessionError>)
        ensures
            r == match resolve_session_spec(self@, token, now) {
                Some(uid) => Ok::<u128, SessionError>(uid),
                None => Err::<u128, SessionError>(SessionError::SessionNotFound),
            },
    {
        match self.index_of_token(token) {
            Some(i) => {
                let e = self.entries[i];
                if now < e.expires_at {
                    Ok(e.user_id)
                } else {
                    Err(SessionError::SessionNotFound)
                }
            },
            None => Err(SessionError::SessionNotFound),
        }
    }

    /// Revokes `token` at time `now`. A token that does not resolve (absent,
    /// already revoked, or lapsed) is reported as not found and the store is
    /// unchanged; callers that want an idempotent logout treat that as
    /// non-fatal.
    pub fn revoke_session(&mut self, token: u128, now: i64) -> (r: Result<(), SessionError>)
        requires
            old(self).wf(),
        ensures
            final(self).wf(),
            final(self)@ == revoke_session_spec(old(self)@, token, now),
            r == if session_live(old(self)@, token, now) {
                Ok::<(), SessionError>(())
            } else {
                Err::<(), SessionError>(SessionError::SessionNotFound)
            },
    {
        match self.index_of_token(token) {
            Some(i) => {
                let e = self.entries[i];
                if now < e.expires_at {
                    self.entries.remove(i);
                    proof {
                        let s0 = old(self)@;
                        let s1 = self@;
                        assert forall|a: int, b: int| 0 <= a < b < s1.len() implies s1[a].token
                            != s1[b].token by {
                            let a0: int = if a < i as int {
                                a
                            } else {
                                a + 1
                            };
                            let b0: int = if b < i as int {
                                b
                            } else {
                                b + 1
                            };
                            assert(s1[a] == s0[a0]);
                            assert(s1[b] == s0[b0]);
                        }
                    }
                    Ok(())
                } else {
                    Err(SessionError::SessionNotFound)
                }
            },
            None => Err(SessionError::SessionNotFound),
        }
    }
}

/// Law: a token issued at `now` resolves to the issuing user at any time
/// strictly before the ttl elapses, and resolves to nothing at or after it.
pub proof fn lemma_resolve_after_create(
    s: Seq<SessionEntry>,
    token: u128,
    user_id: u128,
    now: i64,
    at: i64,
)
    requires
        sessions_wf(s),
        now + SESSION_TTL_SECS <= i64::MAX,
    ensures
        resolve_session_spec(create_session_spec(s, token, user_id, now), token, at) == if at < now
            + SESSION_TTL_SECS {
            Some(user_id)
        } else {
            None::<u128>
        },
{
    lemma_token_index_from(s, token, 0);
    let s2 = create_session_spec(s, token, user_id, now);
    match token_index(s, token) {
        Some(i) => {
            assert(is_first_token_match(s2, token, 0, Some(i)));
            lemma_token_index_eq(s2, token, Some(i));
        },
        None => {
            assert(is_first_token_match(s2, token, 0, Some(s.len() as int)));
            lemma_token_index_eq(s2, token, Some(s.len() as int));
        },
    }
}

/// Law: creating a session under one token leaves the resolution of every
/// other token as it was: a new login adds an independent session and
/// invalidates no prior one.
pub proof fn lemma_create_preserves_others(
    s: Seq<SessionEntry>,
    token: u128,
    user_id: u128,
    now: i64,
    other: u128,
    at: i64,
)
    requires
        other != token,
    ensures
        resolve_session_spec(create_session_spec(s, token, user_id, now), other, at)
            == resolve_session_spec(s, other, at),
{
    lemma_token_index_from(s, token, 0);
    lemma_token_index_from(s, other, 0);
    let s2 = create_session_spec(s, token, user_id, now);
    match token_index(s, other) {
        Some(j) => {
            assert(is_first_token_match(s2, other, 0, Some(j)));
            lemma_token_index_eq(s2, other, Some(j));
        },
        None => {
            assert(is_first_token_match(s2, other, 0, None::<int>));
            lemma_token_index_eq(s2, other, None::<int>);
        },
    }
}

/// Law: after `token` is revoked at `now`, it resolves to nothing at any
/// later (or equal) time.
pub proof fn lemma_resolve_after_revoke(s: Seq<SessionEntry>, token: u128, now: i64, at: i64)
    requires
        sessions_wf(s),
        now <= at,
    ensures
        resolve_session_spec(revoke_session_spec(s, token, now), token, at) is None,
{
    lemma_token_index_from(s, token, 0);
    let s2 = revoke_session_spec(s, token, now);
    match token_index(s, token) {
        Some(i) => {
            if now < s[i].expires_at {
                assert forall|k: int| 0 <= k < s2.len() implies s2[k].token != token by {
                    let k0: int = if k < i {
                        k
                    } else {
                        k + 1
                    };
                    assert(s2[k] == s[k0]);
                }
                assert(is_first_token_match(s2, token, 0, None::<int>));
                lemma_token_index_eq(s2, token, None::<int>);
            }
        },
        None => {},
    }
}

/// Law: revoking one token leaves the resolution of every other token as it
/// was; concurrent sessions of one user are independent.
pub proof fn lemma_revoke_preserves_others(
    s: Seq<SessionEntry>,
    token: u128,
    now: i64,
    other: u128,
    at: i64,
)
    requires
        sessions_wf(s),
        other != token,
    ensures
        resolve_session_spec(revoke_session_spec(s, token, now), other, at)
            == resolve_session_spec(s, other, at),
{
    lemma_token_index_from(s, token, 0);
    lemma_token_index_from(s, other, 0);
    let s2 = revoke_session_spec(s, token, now);
    match token_index(s, token) {
        Some(i) => {
            if now < s[i].expires_at {
                match token_index(s, other) {
                    Some(j) => {
                        let j2: int = if j < i {
                            j
                        } else {
                            j - 1
                        };
                        assert(s2[j2] == s[j]);
                        assert forall|k: int| 0 <= k < j2 implies s2[k].token != other by {
                            let k0: int = if k < i {
                                k
                            } else {
                                k + 1
                            };
                            assert(s2[k] == s[k0]);
                        }
                        assert(is_first_token_match(s2, other, 0, Some(j2)));
                        lemma_token_index_eq(s2, other, Some(j2));
                    },
                    None => {
                        assert forall|k: int| 0 <= k < s2.len() implies s2[k].token != other by {
                            let k0: int = if k < i {
                                k
                            } else {
                                k + 1
                            };
                            assert(s2[k] == s[k0]);
                        }
                        assert(is_first_token_match(s2, other, 0, None::<int>));
                        lemma_token_index_eq(s2, other, None::<int>);
                    },
                }
            }
        },
        None => {},
    }
}

} // verus!
