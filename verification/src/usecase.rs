//! The account usecase: registration and login.
//!
//! Registration validates the payload shape, hashes the password, persists
//! the record under a fresh id with server-assigned timestamps, and
//! translates the store's uniqueness violation into the domain conflict
//! [`UsecaseError::UserAlreadyExists`]. Login looks the user up by email and
//! checks the password against the stored hash; an unknown email and a
//! mismatching password are distinct outcomes, as the surface exposes them.
//! The usecase never touches the session store: session creation is its
//! caller's responsibility.

use vstd::prelude::*;

use crate::credentials::{argon2_check, hash_password, verify_password};
use crate::errors::{DBError, UsecaseError};
use crate::model::{RegisterRequest, User};
use crate::tokens::fresh_id;
use crate::users_repo::{
    create_user_spec, email_taken, id_taken, is_first_email_match, lemma_email_index_eq,
    lemma_email_index_from, user_by_email, users_wf, UserRepo,
};
use crate::validate::{validate_register, validate_register_spec};

verus! {

/// What the store holds, and what registration answers, once the payload is
/// validated and the password hash, the fresh id and the time are fixed: a
/// taken email is the domain conflict, a colliding id an infrastructure
/// error, and otherwise the record is appended and returned.
pub open spec fn register_hashed_spec(
    s: Seq<User>,
    req: RegisterRequest,
    password_hash: String,
    id: u128,
    now: i64,
) -> (Seq<User>, Result<User, UsecaseError>) {
    let user = User {
        id,
        email: req.email,
        username: req.username,
        password_hash,
        created_at: now,
        updated_at: now,
    };
    let outcome = create_user_spec(s, user, now);
    (
        outcome.0,
        match outcome.1 {
            Ok(u) => Ok(u),
            Err(DBError::UniqueEmailViolation) => Err(UsecaseError::UserAlreadyExists),
            Err(DBError::UniqueIdViolation) => Err(UsecaseError::Infrastructure),
        },
    )
}

/// What a login answers: the record carrying the email, when the password
/// checks out against its stored hash; else the mismatch, the unknown email,
/// or the failure of the hashing primitive, each as its own outcome.
pub open spec fn login_spec(s: Seq<User>, email: Seq<char>, password: Seq<char>) -> Result<
    User,
    UsecaseError,
> {
    match user_by_email(s, email) {
        None => Err(UsecaseError::UserNotFound),
        Some(u) => match argon2_check(password, u.password_hash@) {
            Some(true) => Ok(u),
            Some(false) => Err(UsecaseError::InvalidCredentials),
            None => Err(UsecaseError::HashingFailure),
        },
    }
}

/// Persists an already-validated registration whose password hash, fresh id
/// and time are in hand, exactly as [`register_hashed_spec`] says.
pub fn register_hashed(
    repo: &mut UserRepo,
    req: RegisterRequest,
    password_hash: String,
    id: u128,
    now: i64,
) -> (r: Result<User, UsecaseError>)
    requires
        old(repo).wf(),
    ensures
        final(repo).wf(),
        final(repo)@ == register_hashed_spec(old(repo)@, req, password_hash, id, now).0,
        r == register_hashed_spec(old(repo)@, req, password_hash, id, now).1,
{
    let user = User {
        id,
        email: req.email,
        username: req.username,
        password_hash,
        created_at: now,
        updated_at: now,
    };
    match repo.create_user(user, now) {
        Ok(u) => Ok(u),
        Err(DBError::UniqueEmailViolation) => Err(UsecaseError::UserAlreadyExists),
        Err(DBError::UniqueIdViolation) => Err(UsecaseError::Infrastructure),
    }
}

/// Registers an account: validates the payload, hashes the password, and
/// persists a record under a fresh id with both timestamps set to `now`.
///
/// On success the persisted record is returned: its email and username are
/// the payload's, its hash is non-empty, differs from the plaintext, and
/// verifies against the plaintext, and the store grew by exactly that
/// record. A malformed payload is rejected with the first failing check and
/// nothing else is reported that way; an already-taken email surfaces as
/// `UserAlreadyExists` (unless the hashing primitive failed first); every
/// failure leaves the store unchanged.
pub fn register(repo: &mut UserRepo, req: &RegisterRequest, now: i64) -> (r: Result<
    User,
    UsecaseError,
>)
    requires
        old(repo).wf(),
    ensures
        final(repo).wf(),
        (r matches Err(e) && e is Validation) <==> validate_register_spec(*req) is Some,
        validate_register_spec(*req) matches Some(v) ==> r == Err::<User, UsecaseError>(
            UsecaseError::Validation(v),
        ),
        r is Err ==> final(repo)@ == old(repo)@,
        r matches Err(e) ==> (e is Validation || e == UsecaseError::UserAlreadyExists || e
            == UsecaseError::HashingFailure || e == UsecaseError::Infrastructure),
        r == Err::<User, UsecaseError>(UsecaseError::UserAlreadyExists) ==> email_taken(
            old(repo)@,
            req.email@,
        ),
        validate_register_spec(*req) is None && email_taken(old(repo)@, req.email@) ==> (r
            == Err::<User, UsecaseError>(UsecaseError::UserAlreadyExists) || r == Err::<
            User,
            UsecaseError,
        >(UsecaseError::HashingFailure)),
        r matches Ok(u) ==> {
            &&& validate_register_spec(*req) is None
            &&& !email_taken(old(repo)@, req.email@)
            &&& !id_taken(old(repo)@, u.id)
            &&& final(repo)@ == old(repo)@.push(u)
            &&& u.email == req.email
            &&& u.username == req.username
            &&& u.created_at == now
            &&& u.updated_at == now
            &&& argon2_check(req.password@, u.password_hash@) == Some(true)
            &&& u.password_hash@.len() > 0
            &&& u.password_hash@ != req.password@
        },
{
    match validate_register(req) {
        Some(v) => Err(UsecaseError::Validation(v)),
        None => {
            let password_hash = match hash_password(&req.password) {
                Ok(h) => h,
                Err(e) => {
                    return Err(e);
                },
            };
            let id = fresh_id();
            register_hashed(repo, req.clone(), password_hash, id, now)
        },
    }
}

/// Authenticates by email and password, exactly as [`login_spec`] says: an
/// unknown email is `UserNotFound`, a mismatch is `InvalidCredentials`, a
/// stored hash the primitive cannot use is the hashing failure, and on a
/// match the stored record is returned. The store is read, never changed.
pub fn login(repo: &UserRepo, email: &String, password: &String) -> (r: Result<
    User,
    UsecaseError,
>)
    ensures
        r == login_spec(repo@, email@, password@),
{
    match repo.get_user_by_email(email) {
        None => Err(UsecaseError::UserNotFound),
        Some(u) => {
            match verify_password(password, &u.password_hash) {
                Ok(true) => Ok(u),
                Ok(false) => Err(UsecaseError::InvalidCredentials),
                Err(e) => Err(e),
            }
        },
    }
}

/// Law: registering again with an email that a prior successful registration
/// persisted fails with `UserAlreadyExists`, whatever hash, id and time the
/// retry carries; the store — the first record included — is unchanged, and
/// the email still resolves to the first record.
pub proof fn lemma_duplicate_registration_rejected(
    s: Seq<User>,
    req1: RegisterRequest,
    hash1: String,
    id1: u128,
    now1: i64,
    req2: RegisterRequest,
    hash2: String,
    id2: u128,
    now2: i64,
)
    requires
        users_wf(s),
        register_hashed_spec(s, req1, hash1, id1, now1).1 is Ok,
        req2.email@ == req1.email@,
    ensures
        ({
            let s1 = register_hashed_spec(s, req1, hash1, id1, now1).0;
            let u1 = register_hashed_spec(s, req1, hash1, id1, now1).1->Ok_0;
            &&& register_hashed_spec(s1, req2, hash2, id2, now2).0 == s1
            &&& register_hashed_spec(s1, req2, hash2, id2, now2).1 == Err::<User, UsecaseError>(
                UsecaseError::UserAlreadyExists,
            )
            &&& user_by_email(s1, req1.email@) == Some(u1)
        }),
{
    lemma_email_index_from(s, req1.email@, 0);
    let s1 = register_hashed_spec(s, req1, hash1, id1, now1).0;
    let u1 = register_hashed_spec(s, req1, hash1, id1, now1).1->Ok_0;
    assert(s1 == s.push(u1));
    assert(is_first_email_match(s1, req1.email@, 0, Some(s.len() as int)));
    lemma_email_index_eq(s1, req1.email@, Some(s.len() as int));
}

/// Law: a login under an email no record carries fails with `UserNotFound`,
/// whatever the password; a login against a stored hash that the primitive
/// rejects for the offered password — what it does for every wrong password —
/// fails with `InvalidCredentials`.
pub proof fn lemma_login_failures(s: Seq<User>, email: Seq<char>, password: Seq<char>)
    ensures
        !email_taken(s, email) ==> login_spec(s, email, password) == Err::<User, UsecaseError>(
            UsecaseError::UserNotFound,
        ),
        (user_by_email(s, email) matches Some(u) && argon2_check(password, u.password_hash@)
            == Some(false)) ==> login_spec(s, email, password) == Err::<User, UsecaseError>(
            UsecaseError::InvalidCredentials,
        ),
{
}

/// Law: logging in with the email and password of a successful registration
/// returns the very record the registration persisted — the same id in
/// particular. The hypothesis on `argon2_check` is what the registration's
/// own contract guarantees of the hash it stored.
pub proof fn lemma_login_after_register(
    s: Seq<User>,
    req: RegisterRequest,
    password_hash: String,
    id: u128,
    now: i64,
)
    requires
        users_wf(s),
        register_hashed_spec(s, req, password_hash, id, now).1 is Ok,
        argon2_check(req.password@, password_hash@) == Some(true),
    ensures
        login_spec(
            register_hashed_spec(s, req, password_hash, id, now).0,
            req.email@,
            req.password@,
        ) == Ok::<User, UsecaseError>(register_hashed_spec(s, req, password_hash, id, now).1->Ok_0),
{
    lemma_email_index_from(s, req.email@, 0);
    let s1 = register_hashed_spec(s, req, password_hash, id, now).0;
    let u1 = register_hashed_spec(s, req, password_hash, id, now).1->Ok_0;
    assert(s1 == s.push(u1));
    assert(is_first_email_match(s1, req.email@, 0, Some(s.len() as int)));
    lemma_email_index_eq(s1, req.email@, Some(s.len() as int));
    assert(u1.password_hash == password_hash);
}

} // verus!
