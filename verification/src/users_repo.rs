//! The user store: identity records keyed by id, with emails unique across
//! all records.
//!
//! Creation enforces the email uniqueness constraint atomically with the
//! insert and reports a conflict as a typed outcome; reads, updates and
//! deletes are keyed by id. Only the username and the update timestamp are
//! mutable; email, id, creation time and password hash never change after
//! creation.

use vstd::prelude::*;

use crate::errors::DBError;
use crate::model::User;

verus! {

/// The first position at or behind `from` whose record carries `email`.
pub open spec fn email_index_from(s: Seq<User>, email: Seq<char>, from: int) -> Option<int>
    decreases s.len() - from,
{
    if from < 0 || from >= s.len() {
        None
    } else if s[from].email@ == email {
        Some(from)
    } else {
        email_index_from(s, email, from + 1)
    }
}

/// The position of the record carrying `email`, if any.
pub open spec fn email_index(s: Seq<User>, email: Seq<char>) -> Option<int> {
    email_index_from(s, email, 0)
}

/// Whether some record carries `email`.
pub open spec fn email_taken(s: Seq<User>, email: Seq<char>) -> bool {
    email_index(s, email) is Some
}

/// The record carrying `email`, if any.
pub open spec fn user_by_email(s: Seq<User>, email: Seq<char>) -> Option<User> {
    match email_index(s, email) {
        Some(i) => Some(s[i]),
        None => None,
    }
}

/// The first position at or behind `from` whose record carries `id`.
pub open spec fn id_index_from(s: Seq<User>, id: u128, from: int) -> Option<int>
    decreases s.len() - from,
{
    if from < 0 || from >= s.len() {
        None
    } else if s[from].id == id {
        Some(from)
    } else {
        id_index_from(s, id, from + 1)
    }
}

/// The position of the record carrying `id`, if any.
pub open spec fn id_index(s: Seq<User>, id: u128) -> Option<int> {
    id_index_from(s, id, 0)
}

/// Whether some record carries `id`.
pub open spec fn id_taken(s: Seq<User>, id: u128) -> bool {
    id_index(s, id) is Some
}

/// The record carrying `id`, if any.
pub open spec fn user_by_id(s: Seq<User>, id: u128) -> Option<User> {
    match id_index(s, id) {
        Some(i) => Some(s[i]),
        None => None,
    }
}

/// No two records share an id or an email.
pub open spec fn users_wf(s: Seq<User>) -> bool {
    forall|i: int, j: int|
        0 <= i < j < s.len() ==> s[i].id != s[j].id && s[i].email@ != s[j].email@
}

/// `r` is the first position at or behind `from` carrying `email`, or there
/// is none.
pub open spec fn is_first_email_match(
    s: Seq<User>,
    email: Seq<char>,
    from: int,
    r: Option<int>,
) -> bool {
    match r {
        Some(j) => {
            &&& from <= j < s.len()
            &&& s[j].email@ == email
            &&& forall|k: int| from <= k < j ==> s[k].email@ != email
        },
        None => forall|k: int| from <= k < s.len() ==> s[k].email@ != email,
    }
}

/// `r` is the first position at or behind `from` carrying `id`, or there is
/// none.
pub open spec fn is_first_id_match(s: Seq<User>, id: u128, from: int, r: Option<int>) -> bool {
    match r {
        Some(j) => {
            &&& from <= j < s.len()
            &&& s[j].id == id
            &&& forall|k: int| from <= k < j ==> s[k].id != id
        },
        None => forall|k: int| from <= k < s.len() ==> s[k].id != id,
    }
}

/// What `email_index_from` returns is the first match.
pub proof fn lemma_email_index_from(s: Seq<User>, email: Seq<char>, from: int)
    requires
        0 <= from,
    ensures
        is_first_email_match(s, email, from, email_index_from(s, email, from)),
    decreases s.len() - from,
{
    if from < s.len() && s[from].email@ != email {
        lemma_email_index_from(s, email, from + 1);
    }
}

/// What `id_index_from` returns is the first match.
pub proof fn lemma_id_index_from(s: Seq<User>, id: u128, from: int)
    requires
        0 <= from,
    ensures
        is_first_id_match(s, id, from, id_index_from(s, id, from)),
    decreases s.len() - from,
{
    if from < s.len() && s[from].id != id {
        lemma_id_index_from(s, id, from + 1);
    }
}

/// A witness that `r` is the first email match settles what `email_index`
/// is.
pub proof fn lemma_email_index_eq(s: Seq<User>, email: Seq<char>, r: Option<int>)
    requires
        is_first_email_match(s, email, 0, r),
    ensures
        email_index(s, email) == r,
{
    lemma_email_index_from(s, email, 0);
    let r1 = email_index(s, email);
    if r1 is Some && r is Some {
        let a = r1.unwrap();
        let b = r.unwrap();
        if a < b {
            assert(s[a].email@ != email);
        } else if b < a {
            assert(s[b].email@ != email);
        }
    } else if r1 is Some {
        assert(s[r1.unwrap()].email@ != email);
    } else if r is Some {
        assert(s[r.unwrap()].email@ != email);
    }
}

/// The record persisted for `user` at time `now`: the server assigns both
/// timestamps, everything else is taken as handed in.
pub open spec fn persisted_user(user: User, now: i64) -> User {
    User {
        id: user.id,
        email: user.email,
        username: user.username,
        password_hash: user.password_hash,
        created_at: now,
        updated_at: now,
    }
}

/// What the store holds, and what it answers, after `user` is persisted at
/// time `now`: a taken email is the conflict the usecase translates to a
/// domain error, a taken id is an internal conflict, and otherwise the
/// record is appended with server-assigned timestamps and returned.
pub open spec fn create_user_spec(s: Seq<User>, user: User, now: i64) -> (Seq<User>, Result<
    User,
    DBError,
>) {
    if email_taken(s, user.email@) {
        (s, Err(DBError::UniqueEmailViolation))
    } else if id_taken(s, user.id) {
        (s, Err(DBError::UniqueIdViolation))
    } else {
        (s.push(persisted_user(user, now)), Ok(persisted_user(user, now)))
    }
}

/// What the store holds, and what it answers, after the username of the
/// record carrying `id` is replaced at time `now`: only the username and the
/// update timestamp change, and the updated record is returned; an absent id
/// changes nothing.
pub open spec fn update_user_spec(s: Seq<User>, id: u128, new_username: String, now: i64) -> (
    Seq<User>,
    Option<User>,
) {
    match id_index(s, id) {
        Some(i) => {
            let u = User {
                id: s[i].id,
                email: s[i].email,
                username: new_username,
                password_hash: s[i].password_hash,
                created_at: s[i].created_at,
                updated_at: now,
            };
            (s.update(i, u), Some(u))
        },
        None => (s, None),
    }
}

/// What the store holds after the record carrying `id` is deleted, and
/// whether one was: an absent id changes nothing.
pub open spec fn delete_user_spec(s: Seq<User>, id: u128) -> (Seq<User>, bool) {
    match id_index(s, id) {
        Some(i) => (s.remove(i), true),
        None => (s, false),
    }
}

/// The user store. Ids and emails are unique across all records.
pub struct UserRepo {
    users: Vec<User>,
}

impl View for UserRepo {
    type V = Seq<User>;

    closed spec fn view(&self) -> Seq<User> {
        self.users@
    }
}

impl UserRepo {
    /// No two records share an id or an email.
    pub open spec fn wf(&self) -> bool {
        users_wf(self@)
    }

    /// An empty store.
    pub fn new() -> (r: Self)
        ensures
            r@ == Seq::<User>::empty(),
            r.wf(),
    {
        UserRepo { users: Vec::new() }
    }

    fn index_of_email(&self, email: &String) -> (r: Option<usize>)
        ensures
            match r {
                Some(i) => {
                    &&& i < self@.len()
                    &&& self@[i as int].email@ == email@
                    &&& email_index(self@, email@) == Some(i as int)
                },
                None => email_index(self@, email@) is None,
            },
    {
        let n = self.users.len();
        let mut i: usize = 0;
        while i < n
            invariant
                n == self@.len(),
                i <= n,
                email_index(self@, email@) == email_index_from(self@, email@, i as int),
            decreases n - i,
        {
            if self.users[i].email == *email {
                return Some(i);
            }
            i += 1;
        }
        None
    }

    fn index_of_id(&self, id: u128) -> (r: Option<usize>)
        ensures
            match r {
                Some(i) => {
                    &&& i < self@.len()
                    &&& self@[i as int].id == id
                    &&& id_index(self@, id) == Some(i as int)
                },
                None => id_index(self@, id) is None,
            },
    {
        let n = self.users.len();
        let mut i: usize = 0;
        while i < n
            invariant
                n == self@.len(),
                i <= n,
                id_index(self@, id) == id_index_from(self@, id, i as int),
            decreases n - i,
        {
            if self.users[i].id == id {
                return Some(i);
            }
            i += 1;
        }
        None
    }

    /// Persists `user` with server-assigned timestamps, as
    /// [`create_user_spec`] says: an already-taken email is the uniqueness
    /// violation, checked atomically with the insert.
    pub fn create_user(&mut self, user: User, now: i64) -> (r: Result<User, DBError>)
        requires
            old(self).wf(),
        ensures
            final(self).wf(),
            final(self)@ == create_user_spec(old(self)@, user, now).0,
            r == create_user_spec(old(self)@, user, now).1,
    {
        match self.index_of_email(&user.email) {
            Some(_) => Err(DBError::UniqueEmailViolation),
            None => {
                match self.index_of_id(user.id) {
                    Some(_) => Err(DBError::UniqueIdViolation),
                    None => {
                        proof {
                            lemma_email_index_from(self@, user.email@, 0);
                            lemma_id_index_from(self@, user.id, 0);
                        }
                        let stored = User {
                            id: user.id,
                            email: user.email,
                            username: user.username,
                            password_hash: user.password_hash,
                            created_at: now,
                            updated_at: now,
                        };
                        let out = stored.clone();
                        self.users.push(stored);
                        Ok(out)
                    },
                }
            },
        }
    }

    /// The record carrying `email`, if any: the read-only lookup behind a
    /// login.
    pub fn get_user_by_email(&self, email: &String) -> (r: Option<User>)
        ensures
            r == user_by_email(self@, email@),
    {
        match self.index_of_email(email) {
            Some(i) => Some(self.users[i].clone()),
            None => None,
        }
    }

    /// The record carrying `id`, if any.
    pub fn get_user(&self, id: u128) -> (r: Option<User>)
        ensures
            r == user_by_id(self@, id),
    {
        match self.index_of_id(id) {
            Some(i) => Some(self.users[i].clone()),
            None => None,
        }
    }

    /// Replaces the username of the record carrying `id` at time `now`, as
    /// [`update_user_spec`] says, and returns the updated record; `None`
    /// when the id is absent.
    pub fn update_user(&mut self, id: u128, new_username: String, now: i64) -> (r: Option<User>)
        requires
            old(self).wf(),
        ensures
            final(self).wf(),
            final(self)@ == update_user_spec(old(self)@, id, new_username, now).0,
            r == update_user_spec(old(self)@, id, new_username, now).1,
    {
        match self.index_of_id(id) {
            Some(i) => {
                let current = self.users[i].clone();
                let updated = User {
                    id: current.id,
                    email: current.email,
                    username: new_username,
                    password_hash: current.password_hash,
                    created_at: current.created_at,
                    updated_at: now,
                };
                let out = updated.clone();
                self.users[i] = updated;
                proof {
                    let s0 = old(self)@;
                    let s1 = self@;
                    assert forall|a: int, b: int| 0 <= a < b < s1.len() implies s1[a].id
                        != s1[b].id && s1[a].email@ != s1[b].email@ by {
                        assert(s0[a].id != s0[b].id && s0[a].email@ != s0[b].email@);
                        assert(s1[a].id == s0[a].id && s1[a].email@ == s0[a].email@);
                        assert(s1[b].id == s0[b].id && s1[b].email@ == s0[b].email@);
                    }
                }
                Some(out)
            },
            None => None,
        }
    }

    /// Deletes the record carrying `id`, as [`delete_user_spec`] says, and
    /// reports whether one was present.
    pub fn delete_user(&mut self, id: u128) -> (r: bool)
        requires
            old(self).wf(),
        ensures
            final(self).wf(),
            final(self)@ == delete_user_spec(old(self)@, id).0,
            r == delete_user_spec(old(self)@, id).1,
    {
        match self.index_of_id(id) {
            Some(i) => {
                self.users.remove(i);
                proof {
                    let s0 = old(self)@;
                    let s1 = self@;
                    assert forall|a: int, b: int| 0 <= a < b < s1.len() implies s1[a].id
                        != s1[b].id && s1[a].email@ != s1[b].email@ by {
                        let a0: int = if a < i as int {
                            a
                        } else {
                            a + 1
                        };
                        let b0: int = if b < i as int {
                            b
                        } else {
                            b + 1
                        };
                        assert(s1[a] == s0[a0]);
                        assert(s1[b] == s0[b0]);
                    }
                }
                true
            },
            None => false,
        }
    }
}

} // verus!
