//! The user repository: transactional storage of user rows.
//!
//! Usernames, email addresses and user identifiers are globally unique;
//! a registration that would violate uniqueness changes nothing and is
//! reported as a credential conflict. Either the user exists afterwards
//! with exactly the given fields, or the repository is unchanged.

use vstd::prelude::*;

use crate::domain::{RegisterRequestData, RegisterResponseData};
use crate::errors::AuthError;
use crate::text::str_eq;

verus! {

/// One stored user row. The password field holds the PHC hash record,
/// never a plaintext password.
pub struct UserRow {
    pub user_id: u128,
    pub username: String,
    pub email: String,
    pub password_hash: String,
    pub created_at: i64,
}

/// The mathematical model of a user row.
pub struct UserRowModel {
    pub user_id: u128,
    pub username: Seq<char>,
    pub email: Seq<char>,
    pub password_hash: Seq<char>,
    pub created_at: int,
}

impl View for UserRow {
    type V = UserRowModel;

    open spec fn view(&self) -> UserRowModel {
        UserRowModel {
            user_id: self.user_id,
            username: self.username@,
            email: self.email@,
            password_hash: self.password_hash@,
            created_at: self.created_at as int,
        }
    }
}

/// Whether some row carries this user identifier.
pub open spec fn contains_id(rows: Seq<UserRowModel>, id: u128) -> bool {
    exists|i: int| 0 <= i < rows.len() && (#[trigger] rows[i]).user_id == id
}

/// Whether some row carries this username.
pub open spec fn contains_username(rows: Seq<UserRowModel>, name: Seq<char>) -> bool {
    exists|i: int| 0 <= i < rows.len() && (#[trigger] rows[i]).username == name
}

/// Whether some row carries this email address.
pub open spec fn contains_email(rows: Seq<UserRowModel>, mail: Seq<char>) -> bool {
    exists|i: int| 0 <= i < rows.len() && (#[trigger] rows[i]).email == mail
}

/// The first row carrying this user identifier, if any.
pub open spec fn lookup_id(rows: Seq<UserRowModel>, id: u128) -> Option<UserRowModel>
    decreases rows.len(),
{
    if rows.len() == 0 {
        None
    } else if rows[0].user_id == id {
        Some(rows[0])
    } else {
        lookup_id(rows.drop_first(), id)
    }
}

/// The first row carrying this username, if any.
pub open spec fn lookup_username(rows: Seq<UserRowModel>, name: Seq<char>) -> Option<UserRowModel>
    decreases rows.len(),
{
    if rows.len() == 0 {
        None
    } else if rows[0].username == name {
        Some(rows[0])
    } else {
        lookup_username(rows.drop_first(), name)
    }
}

/// `lookup_id` finds the first match, and finds nothing exactly when no
/// row matches.
proof fn lemma_lookup_id(rows: Seq<UserRowModel>, id: u128)
    ensures
        lookup_id(rows, id) is Some <==> contains_id(rows, id),
        lookup_id(rows, id) matches Some(r) ==> r.user_id == id && exists|i: int|
            0 <= i < rows.len() && rows[i] == r,
    decreases rows.len(),
{
    if rows.len() > 0 {
        lemma_lookup_id(rows.drop_first(), id);
        if rows[0].user_id != id {
            if contains_id(rows, id) {
                let i = choose|i: int|
                    0 <= i < rows.len() && (#[trigger] rows[i]).user_id == id;
                assert(rows.drop_first()[i - 1] == rows[i]);
            }
            if contains_id(rows.drop_first(), id) {
                let i = choose|i: int|
                    0 <= i < rows.drop_first().len() && (#[trigger] rows.drop_first()[i]).user_id
                        == id;
                assert(rows[i + 1] == rows.drop_first()[i]);
            }
        }
    }
}

/// `lookup_username` finds the first match, and finds nothing exactly when
/// no row matches.
proof fn lemma_lookup_username(rows: Seq<UserRowModel>, name: Seq<char>)
    ensures
        lookup_username(rows, name) is Some <==> contains_username(rows, name),
        lookup_username(rows, name) matches Some(r) ==> r.username == name && exists|i: int|
            0 <= i < rows.len() && rows[i] == r,
    decreases rows.len(),
{
    if rows.len() > 0 {
        lemma_lookup_username(rows.drop_first(), name);
        if rows[0].username != name {
            if contains_username(rows, name) {
                let i = choose|i: int|
                    0 <= i < rows.len() && (#[trigger] rows[i]).username == name;
                assert(rows.drop_first()[i - 1] == rows[i]);
            }
            if contains_username(rows.drop_first(), name) {
                let i = choose|i: int|
                    0 <= i < rows.drop_first().len() && (#[trigger] rows.drop_first()[i]).username
                        == name;
                assert(rows[i + 1] == rows.drop_first()[i]);
            }
        }
    }
}

/// A row just added under a fresh identifier is exactly what `lookup_id`
/// then finds: a registration's user identifier is retrievable, with the
/// stored username and email matching the registered ones.
pub proof fn lemma_fresh_row_found(rows: Seq<UserRowModel>, row: UserRowModel)
    requires
        !contains_id(rows, row.user_id),
    ensures
        lookup_id(rows.push(row), row.user_id) == Some(row),
    decreases rows.len(),
{
    if rows.len() == 0 {
        assert(rows.push(row)[0] == row);
    } else {
        assert(rows.push(row)[0] == rows[0]);
        assert(rows[0].user_id != row.user_id);
        assert(rows.push(row).drop_first() =~= rows.drop_first().push(row));
        assert forall|i: int|
            0 <= i < rows.drop_first().len() implies (#[trigger] rows.drop_first()[i]).user_id
            != row.user_id by {
            assert(rows.drop_first()[i] == rows[i + 1]);
        }
        lemma_fresh_row_found(rows.drop_first(), row);
    }
}

/// The in-memory user repository. Registration inserts atomically; no
/// partial state survives a failed registration.
pub struct UserRepo {
    rows: Vec<UserRow>,
}

impl View for UserRepo {
    type V = Seq<UserRowModel>;

    closed spec fn view(&self) -> Seq<UserRowModel> {
        Seq::new(self.rows@.len(), |i: int| self.rows@[i]@)
    }
}

impl UserRepo {
    /// Usernames, emails and identifiers are pairwise distinct.
    #[verifier::type_invariant]
    spec fn wf(self) -> bool {
        forall|i: int, j: int|
            0 <= i < j < self.rows@.len() ==> (#[trigger] self.rows@[i])@.user_id
                != (#[trigger] self.rows@[j])@.user_id && self.rows@[i]@.username
                != self.rows@[j]@.username && self.rows@[i]@.email != self.rows@[j]@.email
    }

    /// An empty repository.
    pub fn new() -> (r: Self)
        ensures
            r@ == Seq::<UserRowModel>::empty(),
    {
        let rows: Vec<UserRow> = Vec::new();
        let r = UserRepo { rows };
        proof {
            assert(r@ =~= Seq::<UserRowModel>::empty());
        }
        r
    }

    /// How many users are stored.
    pub fn count(&self) -> (r: usize)
        ensures
            r == self@.len(),
    {
        self.rows.len()
    }

    /// Whether a row with this username exists.
    pub fn has_username(&self, name: &str) -> (r: bool)
        ensures
            r == contains_username(self@, name@),
    {
        let n = self.rows.len();
        let mut i: usize = 0;
        while i < n
            invariant
                n == self.rows@.len(),
                i <= n,
                self@.len() == n,
                forall|j: int| 0 <= j < i ==> (#[trigger] self@[j]).username != name@,
            decreases n - i,
        {
            if str_eq(self.rows[i].username.as_str(), name) {
                assert(self@[i as int].username == name@);
                return true;
            }
            assert(self@[i as int] == self.rows@[i as int]@);
            i = i + 1;
        }
        false
    }

    /// Whether a row with this email exists.
    pub fn has_email(&self, mail: &str) -> (r: bool)
        ensures
            r == contains_email(self@, mail@),
    {
        let n = self.rows.len();
        let mut i: usize = 0;
        while i < n
            invariant
                n == self.rows@.len(),
                i <= n,
                self@.len() == n,
                forall|j: int| 0 <= j < i ==> (#[trigger] self@[j]).email != mail@,
            decreases n - i,
        {
            if str_eq(self.rows[i].email.as_str(), mail) {
                assert(self@[i as int].email == mail@);
                return true;
            }
            assert(self@[i as int] == self.rows@[i as int]@);
            i = i + 1;
        }
        false
    }

    /// Whether a row with this identifier exists.
    fn scan_id(&self, id: u128) -> (r: bool)
        ensures
            r == contains_id(self@, id),
    {
        let n = self.rows.len();
        let mut i: usize = 0;
        while i < n
            invariant
                n == self.rows@.len(),
                i <= n,
                self@.len() == n,
                forall|j: int| 0 <= j < i ==> (#[trigger] self@[j]).user_id != id,
            decreases n - i,
        {
            if self.rows[i].user_id == id {
                assert(self@[i as int].user_id == id);
                return true;
            }
            assert(self@[i as int] == self.rows@[i as int]@);
            i = i + 1;
        }
        false
    }

    /// Registers a user as one transaction, under a caller-supplied fresh
    /// identifier. The password field of `user` already holds the hash
    /// record. On success the repository grows by exactly the new row; on
    /// any failure it is unchanged. A username or email collision is a
    /// credential conflict; an identifier collision is an internal error.
    pub fn register_user(&mut self, user: RegisterRequestData, user_id: u128, created_at: i64) -> (r:
        Result<RegisterResponseData, AuthError>)
        ensures
            r matches Ok(resp) ==> final(self)@ == old(self)@.push(
                UserRowModel {
                    user_id: user_id,
                    username: user.username.username@,
                    email: user.email.email@,
                    password_hash: user.password.password@,
                    created_at: created_at as int,
                },
            ) && resp.username@ == user.username.username@ && resp.user_id == user_id
                && !contains_id(old(self)@, user_id),
            (contains_username(old(self)@, user.username.username@) || contains_email(
                old(self)@,
                user.email.email@,
            )) <==> r == Err::<RegisterResponseData, AuthError>(AuthError::CredentialConflict),
            !contains_username(old(self)@, user.username.username@) && !contains_email(
                old(self)@,
                user.email.email@,
            ) && contains_id(old(self)@, user_id) ==> r == Err::<
                RegisterResponseData,
                AuthError,
            >(AuthError::Storage),
            !contains_username(old(self)@, user.username.username@) && !contains_email(
                old(self)@,
                user.email.email@,
            ) && !contains_id(old(self)@, user_id) ==> r is Ok,
            r is Err ==> final(self)@ == old(self)@,
    {
        proof {
            use_type_invariant(&*self);
        }
        if self.has_username(user.username.username.as_str()) {
            return Err(AuthError::CredentialConflict);
        }
        if self.has_email(user.email.email.as_str()) {
            return Err(AuthError::CredentialConflict);
        }
        let id = user_id;
        if self.scan_id(id) {
            return Err(AuthError::Storage);
        }
        let username_copy = user.username.username.clone();
        let row = UserRow {
            user_id: id,
            username: user.username.username,
            email: user.email.email,
            password_hash: user.password.password,
            created_at,
        };
        let ghost old_rows = self@;
        proof {
            assert forall|i: int| 0 <= i < self.rows@.len() implies (#[trigger] self.rows@[i])@.user_id
                != row@.user_id && self.rows@[i]@.username != row@.username
                && self.rows@[i]@.email != row@.email by {
                assert(self@[i] == self.rows@[i]@);
            }
        }
        let mut rows: Vec<UserRow> = Vec::new();
        std::mem::swap(&mut rows, &mut self.rows);
        rows.push(row);
        std::mem::swap(&mut rows, &mut self.rows);
        proof {
            assert(self@ =~= old_rows.push(row@));
        }
        Ok(RegisterResponseData { user_id: id, username: username_copy })
    }

    /// Finds a user by identifier: exactly the first (and, by uniqueness,
    /// only) row carrying it.
    pub fn get_user_from_id(&self, id: u128) -> (r: Option<&UserRow>)
        ensures
            match r {
                Some(u) => lookup_id(self@, id) == Some(u@),
                None => lookup_id(self@, id) is None,
            },
    {
        proof {
            lemma_lookup_id(self@, id);
        }
        let n = self.rows.len();
        let mut i: usize = 0;
        while i < n
            invariant
                n == self.rows@.len(),
                i <= n,
                self@.len() == n,
                forall|j: int| 0 <= j < i ==> (#[trigger] self@[j]).user_id != id,
            decreases n - i,
        {
            if self.rows[i].user_id == id {
                proof {
                    assert(self@[i as int] == self.rows@[i as int]@);
                    lemma_lookup_first_id(self@, id, i as int);
                }
                return Some(&self.rows[i]);
            }
            assert(self@[i as int] == self.rows@[i as int]@);
            i = i + 1;
        }
        proof {
            lemma_lookup_id(self@, id);
        }
        None
    }

    /// Finds a user by username: exactly the first (and only) row carrying
    /// it.
    pub fn get_user_from_username(&self, username: &str) -> (r: Option<&UserRow>)
        ensures
            match r {
                Some(u) => lookup_username(self@, username@) == Some(u@),
                None => lookup_username(self@, username@) is None,
            },
    {
        let n = self.rows.len();
        let mut i: usize = 0;
        while i < n
            invariant
                n == self.rows@.len(),
                i <= n,
                self@.len() == n,
                forall|j: int| 0 <= j < i ==> (#[trigger] self@[j]).username != username@,
            decreases n - i,
        {
            if str_eq(self.rows[i].username.as_str(), username) {
                proof {
                    assert(self@[i as int] == self.rows@[i as int]@);
                    lemma_lookup_first_username(self@, username@, i as int);
                }
                return Some(&self.rows[i]);
            }
            assert(self@[i as int] == self.rows@[i as int]@);
            i = i + 1;
        }
        proof {
            lemma_lookup_username(self@, username@);
        }
        None
    }
}

/// If no row before `i` matches and row `i` does, `lookup_id` returns
/// row `i`.
proof fn lemma_lookup_first_id(rows: Seq<UserRowModel>, id: u128, i: int)
    requires
        0 <= i < rows.len(),
        forall|j: int| 0 <= j < i ==> (#[trigger] rows[j]).user_id != id,
        rows[i].user_id == id,
    ensures
        lookup_id(rows, id) == Some(rows[i]),
    decreases i,
{
    if i > 0 {
        assert forall|j: int| 0 <= j < i - 1 implies (#[trigger] rows.drop_first()[j]).user_id
            != id by {
            assert(rows.drop_first()[j] == rows[j + 1]);
        }
        assert(rows.drop_first()[i - 1] == rows[i]);
        lemma_lookup_first_id(rows.drop_first(), id, i - 1);
    }
}

/// If no row before `i` matches and row `i` does, `lookup_username`
/// returns row `i`.
proof fn lemma_lookup_first_username(rows: Seq<UserRowModel>, name: Seq<char>, i: int)
    requires
        0 <= i < rows.len(),
        forall|j: int| 0 <= j < i ==> (#[trigger] rows[j]).username != name,
        rows[i].username == name,
    ensures
        lookup_username(rows, name) == Some(rows[i]),
    decreases i,
{
    if i > 0 {
        assert forall|j: int| 0 <= j < i - 1 implies (#[trigger] rows.drop_first()[j]).username
            != name by {
            assert(rows.drop_first()[j] == rows[j + 1]);
        }
        assert(rows.drop_first()[i - 1] == rows[i]);
        lemma_lookup_first_username(rows.drop_first(), name, i - 1);
    }
}

} // verus!
