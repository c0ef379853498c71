//! Shape checks on a registration payload.
//!
//! A payload is accepted when the email is a syntactically valid address,
//! the username is not empty, and the password has at least
//! [`MIN_PASSWORD_LEN`] characters. An address is considered valid when it
//! holds exactly one `@`, at least one character before it, and a `.` in the
//! domain with at least one character on each side.

use vstd::prelude::*;

use crate::errors::ValidationIssue;
use crate::model::RegisterRequest;

verus! {

/// The minimum accepted password length, in characters.
pub const MIN_PASSWORD_LEN: usize = 6;

/// Position `a` carries the only `@` of `s`, and at least one character
/// stands before it.
pub open spec fn email_at_ok(s: Seq<char>, a: int) -> bool {
    &&& 0 < a < s.len()
    &&& s[a] == '@'
    &&& forall|k: int| 0 <= k < s.len() && k != a ==> s[k] != '@'
}

/// The domain behind position `a` holds a `.` with at least one character
/// on each side.
pub open spec fn email_dot_ok(s: Seq<char>, a: int) -> bool {
    exists|d: int| a + 1 < d < s.len() - 1 && s[d] == '.'
}

/// Whether `s` is a syntactically valid address.
pub open spec fn valid_email(s: Seq<char>) -> bool {
    exists|a: int| #[trigger] email_at_ok(s, a) && email_dot_ok(s, a)
}

/// The first check a registration payload fails, or `None` when it is
/// accepted: the email shape first, then the username, then the password
/// length.
pub open spec fn validate_register_spec(req: RegisterRequest) -> Option<ValidationIssue> {
    if !valid_email(req.email@) {
        Some(ValidationIssue::InvalidEmail)
    } else if req.username@.len() == 0 {
        Some(ValidationIssue::EmptyUsername)
    } else if req.password@.len() < MIN_PASSWORD_LEN {
        Some(ValidationIssue::PasswordTooShort)
    } else {
        None
    }
}

/// Whether `email` is a syntactically valid address.
pub fn is_valid_email(email: &str) -> (r: bool)
    ensures
        r == valid_email(email@),
{
    let n = email.unicode_len();
    let mut i: usize = 0;
    // The position of the first `@`, once one was seen.
    let mut at_pos: Option<usize> = None;
    // A second `@` was seen.
    let mut repeated_at: bool = false;
    // A `.` was seen in the domain, not adjacent to the `@` and not last.
    let mut dot_ok: bool = false;
    while i < n
        invariant
            n == email@.len(),
            i <= n,
            match at_pos {
                None => {
                    &&& !repeated_at
                    &&& !dot_ok
                    &&& forall|k: int| 0 <= k < i ==> email@[k] != '@'
                },
                Some(a) => {
                    &&& a < i
                    &&& email@[a as int] == '@'
                    &&& forall|k: int| 0 <= k < a ==> email@[k] != '@'
                    &&& repeated_at == exists|k: int|
                        a < k < i && #[trigger] email@[k] == '@'
                    &&& dot_ok == exists|d: int|
                        a + 1 < d < i && d < n - 1 && #[trigger] email@[d] == '.'
                },
            },
        decreases n - i,
    {
        let c = email.get_char(i);
        match at_pos {
            None => {
                if c == '@' {
                    at_pos = Some(i);
                }
            },
            Some(a) => {
                if c == '@' {
                    repeated_at = true;
                } else if c == '.' && i > a + 1 && i + 1 < n {
                    dot_ok = true;
                }
            },
        }
        i += 1;
    }
    match at_pos {
        Some(a) => {
            let accepted = a > 0 && !repeated_at && dot_ok;
            proof {
                if accepted {
                    assert(email_at_ok(email@, a as int));
                    assert(valid_email(email@));
                } else {
                    if valid_email(email@) {
                        let w = choose|w: int|
                            #[trigger] email_at_ok(email@, w) && email_dot_ok(email@, w);
                        assert(w == a as int);
                        assert(accepted);
                    }
                }
            }
            accepted
        },
        None => {
            proof {
                if valid_email(email@) {
                    let w = choose|w: int|
                        #[trigger] email_at_ok(email@, w) && email_dot_ok(email@, w);
                    assert(email@[w] == '@');
                }
            }
            false
        },
    }
}

/// Checks a registration payload and names the first field that fails,
/// as [`validate_register_spec`] does.
pub fn validate_register(req: &RegisterRequest) -> (r: Option<ValidationIssue>)
    ensures
        r == validate_register_spec(*req),
{
    if !is_valid_email(req.email.as_str()) {
        Some(ValidationIssue::InvalidEmail)
    } else if req.username.as_str().unicode_len() == 0 {
        Some(ValidationIssue::EmptyUsername)
    } else if req.password.as_str().unicode_len() < MIN_PASSWORD_LEN {
        Some(ValidationIssue::PasswordTooShort)
    } else {
        None
    }
}

} // verus!
