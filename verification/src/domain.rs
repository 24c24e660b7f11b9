//! Domain newtypes for registration input, and their shape validation.
//!
//! A username must be 5 to 20 characters, a password at least 8, and an
//! email address must match the grammar below: a non-empty local part over
//! a fixed character set, one `@`, and a non-empty domain whose labels are
//! separated by single dots and neither start nor end with `-` or `.`.

use vstd::prelude::*;
use vstd::string::StrSliceExecFns;

use crate::errors::{AuthError, ValidationKind};

verus! {

/// A username is valid when it has 5 to 20 characters.
pub open spec fn valid_username(s: Seq<char>) -> bool {
    5 <= s.len() <= 20
}

/// A password is valid when it has at least 8 characters.
pub open spec fn valid_password(s: Seq<char>) -> bool {
    s.len() >= 8
}

/// Characters accepted in the local part of an email address.
pub open spec fn email_local_char(c: char) -> bool {
    ('a' <= c && c <= 'z') || ('A' <= c && c <= 'Z') || ('0' <= c && c <= '9') || c == '.' || c
        == '_' || c == '%' || c == '+' || c == '-'
}

/// Characters accepted in the domain of an email address.
pub open spec fn email_domain_char(c: char) -> bool {
    ('a' <= c && c <= 'z') || ('A' <= c && c <= 'Z') || ('0' <= c && c <= '9') || c == '.' || c
        == '-'
}

/// The local part: non-empty, at most 64 characters, over the local set.
pub open spec fn valid_email_local(s: Seq<char>) -> bool {
    &&& 1 <= s.len() <= 64
    &&& forall|i: int| 0 <= i < s.len() ==> email_local_char(#[trigger] s[i])
}

/// The domain: non-empty, at most 255 characters, over the domain set,
/// with no leading or trailing `.` or `-` and no empty label (`..`).
pub open spec fn valid_email_domain(s: Seq<char>) -> bool {
    &&& 1 <= s.len() <= 255
    &&& forall|i: int| 0 <= i < s.len() ==> email_domain_char(#[trigger] s[i])
    &&& s[0] != '.' && s[0] != '-'
    &&& s[s.len() - 1] != '.' && s[s.len() - 1] != '-'
    &&& forall|i: int| 0 <= i < s.len() - 1 ==> !(#[trigger] s[i] == '.' && s[i + 1] == '.')
}

/// An email address is valid when it splits at an `@` into a valid local
/// part and a valid domain. Since `@` belongs to neither character set,
/// at most one split can succeed.
pub open spec fn valid_email(s: Seq<char>) -> bool {
    exists|i: int|
        0 <= i < s.len() && s[i] == '@' && valid_email_local(s.subrange(0, i))
            && valid_email_domain(s.subrange(i + 1, s.len() as int))
}

/// Decides `valid_username` on a string slice.
pub fn check_username(s: &str) -> (r: bool)
    ensures
        r == valid_username(s@),
{
    let n = s.unicode_len();
    5 <= n && n <= 20
}

/// Decides `valid_password` on a string slice.
pub fn check_password(s: &str) -> (r: bool)
    ensures
        r == valid_password(s@),
{
    let n = s.unicode_len();
    n >= 8
}

/// Decides `email_local_char` on a character.
fn check_local_char(c: char) -> (r: bool)
    ensures
        r == email_local_char(c),
{
    ('a' <= c && c <= 'z') || ('A' <= c && c <= 'Z') || ('0' <= c && c <= '9') || c == '.' || c
        == '_' || c == '%' || c == '+' || c == '-'
}

/// Decides `email_domain_char` on a character.
fn check_domain_char(c: char) -> (r: bool)
    ensures
        r == email_domain_char(c),
{
    ('a' <= c && c <= 'z') || ('A' <= c && c <= 'Z') || ('0' <= c && c <= '9') || c == '.' || c
        == '-'
}

/// Returns the index of the first `@` in `s`, if any.
fn find_at_sign(s: &str) -> (r: Option<usize>)
    ensures
        match r {
            Some(i) => i < s@.len() && s@[i as int] == '@' && forall|j: int|
                0 <= j < i ==> s@[j] != '@',
            None => forall|j: int| 0 <= j < s@.len() ==> s@[j] != '@',
        },
{
    let n = s.unicode_len();
    let mut i: usize = 0;
    while i < n
        invariant
            n == s@.len(),
            i <= n,
            forall|j: int| 0 <= j < i ==> s@[j] != '@',
        decreases n - i,
    {
        if s.get_char(i) == '@' {
            return Some(i);
        }
        i = i + 1;
    }
    None
}

/// Checks that every character of `s@` in `[from, to)` satisfies
/// `email_local_char`.
fn check_local_range(s: &str, from: usize, to: usize) -> (r: bool)
    requires
        from <= to <= s@.len(),
    ensures
        r == forall|i: int| from <= i < to ==> email_local_char(#[trigger] s@[i]),
{
    let mut i: usize = from;
    while i < to
        invariant
            from <= i <= to <= s@.len(),
            forall|j: int| from <= j < i ==> email_local_char(#[trigger] s@[j]),
        decreases to - i,
    {
        if !check_local_char(s.get_char(i)) {
            return false;
        }
        i = i + 1;
    }
    true
}

/// Checks that every character of `s@` in `[from, to)` satisfies
/// `email_domain_char` and that no two consecutive characters are dots.
fn check_domain_range(s: &str, from: usize, to: usize) -> (r: bool)
    requires
        from <= to <= s@.len(),
    ensures
        r == ((forall|i: int| from <= i < to ==> email_domain_char(#[trigger] s@[i])) && (forall|
            i: int,
        |
            from <= i < to - 1 ==> !(#[trigger] s@[i] == '.' && s@[i + 1] == '.'))),
{
    let mut i: usize = from;
    while i < to
        invariant
            from <= i <= to <= s@.len(),
            forall|j: int| from <= j < i ==> email_domain_char(#[trigger] s@[j]),
            forall|j: int| from <= j < i - 1 ==> !(#[trigger] s@[j] == '.' && s@[j + 1] == '.'),
        decreases to - i,
    {
        if !check_domain_char(s.get_char(i)) {
            return false;
        }
        if i > from && s.get_char(i) == '.' && s.get_char(i - 1) == '.' {
            return false;
        }
        i = i + 1;
    }
    true
}

/// Decides `valid_email` on a string slice.
pub fn check_email(s: &str) -> (r: bool)
    ensures
        r == valid_email(s@),
{
    let n = s.unicode_len();
    let at = find_at_sign(s);
    match at {
        None => {
            assert(!valid_email(s@));
            false
        },
        Some(i) => {
            let ghost local = s@.subrange(0, i as int);
            let ghost domain = s@.subrange(i + 1, s@.len() as int);
            let local_ok = 1 <= i && i <= 64 && check_local_range(s, 0, i);
            let domain_len = n - i - 1;
            let domain_ok = 1 <= domain_len && domain_len <= 255 && check_domain_range(
                s,
                i + 1,
                n,
            ) && s.get_char(i + 1) != '.' && s.get_char(i + 1) != '-' && s.get_char(n - 1) != '.'
                && s.get_char(n - 1) != '-';
            let ok = local_ok && domain_ok;
            proof {
                assert(forall|j: int| 0 <= j < local.len() ==> local[j] == s@[j]);
                assert(forall|j: int|
                    0 <= j < domain.len() ==> domain[j] == s@[j + i + 1]);
                if ok {
                    assert(valid_email_local(local));
                    assert(valid_email_domain(domain)) by {
                        assert(domain[0] == s@[i + 1]);
                        assert(domain[domain.len() - 1] == s@[s@.len() - 1]);
                        assert(forall|j: int|
                            0 <= j < domain.len() - 1 ==> !(#[trigger] domain[j] == '.'
                                && domain[j + 1] == '.')) by {
                            assert(forall|k: int|
                                i + 1 <= k < s@.len() - 1 ==> !(#[trigger] s@[k] == '.' && s@[k
                                    + 1] == '.'));
                        }
                    }
                    assert(valid_email(s@));
                } else {
                    assert forall|k: int|
                        !(0 <= k < s@.len() && s@[k] == '@' && valid_email_local(
                            s@.subrange(0, k),
                        ) && valid_email_domain(s@.subrange(k + 1, s@.len() as int))) by {
                        if 0 <= k < s@.len() && s@[k] == '@' {
                            if k < i {
                                assert(s@[k] != '@');
                            } else if k == i {
                                if valid_email_local(s@.subrange(0, k)) && valid_email_domain(
                                    s@.subrange(k + 1, s@.len() as int),
                                ) {
                                    assert(local_ok) by {
                                        assert(forall|j: int|
                                            0 <= j < i ==> s@.subrange(0, i as int)[j] == s@[j]);
                                    }
                                    assert(domain_ok) by {
                                        assert(domain.len() == s@.len() - i - 1);
                                        assert forall|k: int| i + 1 <= k < s@.len() implies email_domain_char(
                                            #[trigger] s@[k],
                                        ) by {
                                            assert(domain[k - i - 1] == s@[k]);
                                        }
                                        assert forall|k: int|
                                            i + 1 <= k < s@.len() - 1 implies !(#[trigger] s@[k]
                                            == '.' && s@[k + 1] == '.') by {
                                            assert(domain[k - i - 1] == s@[k]);
                                            assert(domain[k - i] == s@[k + 1]);
                                        }
                                        assert(s@[i + 1] == domain[0]);
                                        assert(s@[s@.len() - 1] == domain[domain.len() - 1]);
                                    }
                                }
                            } else {
                                assert(s@.subrange(0, k)[i as int] == '@');
                                assert(!email_local_char('@'));
                                assert(!valid_email_local(s@.subrange(0, k)));
                            }
                        }
                    }
                }
            }
            ok
        },
    }
}

/// An email address, as received from a caller; validity is checked
/// separately through `check_email`.
#[derive(Clone, Debug)]
pub struct EmailAddress {
    pub email: String,
}

impl From<String> for EmailAddress {
    fn from(value: String) -> (r: Self) {
        EmailAddress { email: value }
    }
}

impl vstd::std_specs::convert::FromSpecImpl<String> for EmailAddress {
    open spec fn obeys_from_spec() -> bool {
        true
    }

    open spec fn from_spec(value: String) -> Self {
        EmailAddress { email: value }
    }
}

/// A username, as received from a caller.
#[derive(Clone, Debug)]
pub struct Username {
    pub username: String,
}

impl From<String> for Username {
    fn from(value: String) -> (r: Self) {
        Username { username: value }
    }
}

impl vstd::std_specs::convert::FromSpecImpl<String> for Username {
    open spec fn obeys_from_spec() -> bool {
        true
    }

    open spec fn from_spec(value: String) -> Self {
        Username { username: value }
    }
}

/// A plaintext password, as received from a caller; it is hashed before
/// storage and never stored in this form.
#[derive(Clone, Debug)]
pub struct Password {
    pub password: String,
}

impl From<String> for Password {
    fn from(value: String) -> (r: Self) {
        Password { password: value }
    }
}

impl vstd::std_specs::convert::FromSpecImpl<String> for Password {
    open spec fn obeys_from_spec() -> bool {
        true
    }

    open spec fn from_spec(value: String) -> Self {
        Password { password: value }
    }
}

/// The three fields of a registration request.
#[derive(Clone)]
pub struct RegisterRequestData {
    pub username: Username,
    pub email: EmailAddress,
    pub password: Password,
}

/// Whether every field of a registration request is well-shaped.
pub open spec fn valid_register_request(req: RegisterRequestData) -> bool {
    valid_username(req.username.username@) && valid_email(req.email.email@) && valid_password(
        req.password.password@,
    )
}

impl RegisterRequestData {
    /// Bundles the raw request fields; no validation happens here.
    pub fn new(username: String, email: String, password: String) -> (r: Self)
        ensures
            r.username.username == username,
            r.email.email == email,
            r.password.password == password,
    {
        let username = Username { username };
        let password = Password { password };
        let email = EmailAddress { email };
        Self { username, email, password }
    }

    /// Validates the request shape: username length first, then email
    /// format, then password length; `Ok` exactly when all three hold.
    pub fn validate(&self) -> (r: Result<(), AuthError>)
        ensures
            r is Ok <==> valid_register_request(*self),
            !valid_username(self.username.username@) ==> r == Err::<(), AuthError>(
                AuthError::Validation(ValidationKind::UsernameLength),
            ),
            valid_username(self.username.username@) && !valid_email(self.email.email@) ==> r
                == Err::<(), AuthError>(AuthError::Validation(ValidationKind::EmailFormat)),
            valid_username(self.username.username@) && valid_email(self.email.email@)
                && !valid_password(self.password.password@) ==> r == Err::<(), AuthError>(
                AuthError::Validation(ValidationKind::PasswordLength),
            ),
    {
        if !check_username(self.username.username.as_str()) {
            Err(AuthError::Validation(ValidationKind::UsernameLength))
        } else if !check_email(self.email.email.as_str()) {
            Err(AuthError::Validation(ValidationKind::EmailFormat))
        } else if !check_password(self.password.password.as_str()) {
            Err(AuthError::Validation(ValidationKind::PasswordLength))
        } else {
            Ok(())
        }
    }
}

/// What a successful registration returns: the fresh user identifier and
/// the stored username.
#[derive(Clone, Debug)]
pub struct RegisterResponseData {
    pub user_id: u128,
    pub username: String,
}

} // verus!
