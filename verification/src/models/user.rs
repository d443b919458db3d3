//! Users: the stored row, the forms in which one is sent in, and the
//! selections by id and by email.

use vstd::prelude::*;
use crate::auth::{argon2_accepts, hash_password};
use crate::models::{copy_opt_text, opt_text};
use crate::rows::{
    first_row,
    lemma_filter_none,
    lemma_filter_step,
    lemma_first_where_is,
    lemma_first_where_none,
};

verus! {

/// What is sent in to add a user.
#[derive(Debug, PartialEq, Eq)]
pub struct PostUser {
    pub is_admin: bool,
    pub first_name: String,
    pub last_name: String,
    pub email: String,
    pub password: String,
}

/// What is sent in to change a user: every column but the password.
#[derive(Debug, PartialEq, Eq)]
pub struct PutUser {
    pub is_admin: bool,
    pub first_name: String,
    pub last_name: String,
    pub email: String,
}

/// A user as stored. `id` and `created_at` are assigned by the store and
/// absent until then; `password` holds the encoded hash, never the password.
#[derive(Debug, PartialEq, Eq)]
pub struct User {
    pub id: Option<i32>,
    pub is_admin: Option<bool>,
    pub first_name: String,
    pub last_name: String,
    pub email: String,
    pub password: String,
    pub created_at: Option<String>,
}

/// A user by its values.
pub struct UserView {
    pub id: Option<i32>,
    pub is_admin: Option<bool>,
    pub first_name: Seq<char>,
    pub last_name: Seq<char>,
    pub email: Seq<char>,
    pub password: Seq<char>,
    pub created_at: Option<Seq<char>>,
}

impl View for User {
    type V = UserView;

    open spec fn view(&self) -> UserView {
        UserView {
            id: self.id,
            is_admin: self.is_admin,
            first_name: self.first_name@,
            last_name: self.last_name@,
            email: self.email@,
            password: self.password@,
            created_at: opt_text(self.created_at),
        }
    }
}

impl Clone for User {
    fn clone(&self) -> (copy: Self)
        ensures
            copy == *self,
    {
        User {
            id: self.id,
            is_admin: self.is_admin,
            first_name: self.first_name.clone(),
            last_name: self.last_name.clone(),
            email: self.email.clone(),
            password: self.password.clone(),
            created_at: copy_opt_text(&self.created_at),
        }
    }
}

/// The row that stands for a new user before the store has seen it.
pub open spec fn new_user(
    is_admin: bool,
    first_name: Seq<char>,
    last_name: Seq<char>,
    email: Seq<char>,
    password: Seq<char>,
) -> UserView {
    UserView {
        id: None,
        is_admin: Some(is_admin),
        first_name,
        last_name,
        email,
        password,
        created_at: None,
    }
}

/// The first of `users` with this id.
pub open spec fn user_by_id(users: Seq<User>, id: i32) -> Option<User> {
    first_row(users, |u: User| u.id == Some(id))
}

/// The first of `users` with this email.
pub open spec fn user_by_email(users: Seq<User>, email: Seq<char>) -> Option<User> {
    first_row(users, |u: User| u.email@ == email)
}

/// What is left of `users` once the one with this id is deleted.
pub open spec fn users_without(users: Seq<User>, id: i32) -> Seq<User> {
    users.filter(|u: User| u.id != Some(id))
}

impl User {
    /// Whether the user holds the admin role. A row without the flag does
    /// not.
    pub open spec fn holds_admin(&self) -> bool {
        self.is_admin == Some(true)
    }

    /// The id under which the user owns bookings: the stored id, or 0 while
    /// the store has assigned none.
    pub open spec fn spec_owner_id(&self) -> i32 {
        match self.id {
            Some(id) => id,
            None => 0,
        }
    }

    /// The row for a new user whose password hash is at hand. The caller
    /// persists the row.
    pub fn create(
        is_admin: bool,
        first_name: &str,
        last_name: &str,
        email: &str,
        password: &str,
    ) -> (row: User)
        ensures
            row@ == new_user(is_admin, first_name@, last_name@, email@, password@),
    {
        User {
            id: None,
            is_admin: Some(is_admin),
            first_name: first_name.to_owned(),
            last_name: last_name.to_owned(),
            email: email.to_owned(),
            password: password.to_owned(),
            created_at: None,
        }
    }

    /// The row for a new user whose password is hashed here, under a fresh
    /// salt. `None` when hashing fails. The caller persists the row.
    pub fn create_hash(
        is_admin: bool,
        first_name: &str,
        last_name: &str,
        email: &str,
        password: &str,
    ) -> (row: Option<User>)
        ensures
            row matches Some(u) ==> {
                &&& u@ == new_user(is_admin, first_name@, last_name@, email@, u.password@)
                &&& argon2_accepts(password@, u.password@)
            },
    {
        User::with_hash(is_admin, first_name, last_name, email, hash_password(password))
    }

    /// The row for a new user, given what hashing their password came to:
    /// the row that carries the hash, or `None` where hashing failed.
    pub fn with_hash(
        is_admin: bool,
        first_name: &str,
        last_name: &str,
        email: &str,
        hash: Option<String>,
    ) -> (row: Option<User>)
        ensures
            match hash {
                Some(encoded) => row matches Some(u) && u@ == new_user(
                    is_admin,
                    first_name@,
                    last_name@,
                    email@,
                    encoded@,
                ),
                None => row is None,
            },
    {
        match hash {
            Some(encoded) => Some(
                User::create(is_admin, first_name, last_name, email, encoded.as_str()),
            ),
            None => None,
        }
    }

    /// The first of `users` with this id.
    pub fn by_id(users: &Vec<User>, id: i32) -> (found: Option<User>)
        ensures
            found == user_by_id(users@, id),
    {
        let ghost wanted = |u: User| u.id == Some(id);
        let mut i: usize = 0;
        while i < users.len()
            invariant
                i <= users.len(),
                wanted == (|u: User| u.id == Some(id)),
                forall|j: int| 0 <= j < i ==> !wanted(#[trigger] users@[j]),
            decreases users.len() - i,
        {
            let hit = match users[i].id {
                Some(stored) => stored == id,
                None => false,
            };
            if hit {
                proof {
                    lemma_first_where_is(users@, wanted, i as int);
                }
                return Some(users[i].clone());
            }
            i += 1;
        }
        proof {
            lemma_first_where_none(users@, wanted);
        }
        None
    }

    /// The first of `users` with this email.
    pub fn by_email(users: &Vec<User>, email: &str) -> (found: Option<User>)
        ensures
            found == user_by_email(users@, email@),
    {
        let ghost wanted = |u: User| u.email@ == email@;
        let probe = email.to_owned();
        let mut i: usize = 0;
        while i < users.len()
            invariant
                i <= users.len(),
                probe@ == email@,
                wanted == (|u: User| u.email@ == email@),
                forall|j: int| 0 <= j < i ==> !wanted(#[trigger] users@[j]),
            decreases users.len() - i,
        {
            if users[i].email == probe {
                proof {
                    lemma_first_where_is(users@, wanted, i as int);
                }
                return Some(users[i].clone());
            }
            i += 1;
        }
        proof {
            lemma_first_where_none(users@, wanted);
        }
        None
    }

    /// All of `users`.
    pub fn all(users: &Vec<User>) -> (rows: Vec<User>)
        ensures
            rows@ == users@,
    {
        let mut rows: Vec<User> = Vec::new();
        let mut i: usize = 0;
        while i < users.len()
            invariant
                i <= users.len(),
                rows@ == users@.take(i as int),
            decreases users.len() - i,
        {
            rows.push(users[i].clone());
            i += 1;
        }
        rows
    }

    /// How many users there are, if the number fits 64 signed bits.
    pub fn count(users: &Vec<User>) -> (n: Option<i64>)
        ensures
            users.len() <= i64::MAX ==> n == Some(users.len() as i64),
            users.len() > i64::MAX ==> n is None,
    {
        let n = users.len() as u64;
        if n > i64::MAX as u64 {
            None
        } else {
            Some(n as i64)
        }
    }

    /// Deletes the user with this id from `users`. Deleting what is not
    /// there succeeds too.
    pub fn delete(users: &mut Vec<User>, id: i32) -> (done: bool)
        ensures
            done,
            final(users)@ == users_without(old(users)@, id),
    {
        let ghost wanted = |u: User| u.id != Some(id);
        let mut rows: Vec<User> = Vec::new();
        let mut i: usize = 0;
        proof {
            lemma_filter_none(users@, wanted);
        }
        while i < users.len()
            invariant
                i <= users.len(),
                users@ == old(users)@,
                wanted == (|u: User| u.id != Some(id)),
                rows@ == users@.take(i as int).filter(wanted),
            decreases users.len() - i,
        {
            proof {
                lemma_filter_step(users@, wanted, i as int);
            }
            let hit = match users[i].id {
                Some(stored) => stored == id,
                None => false,
            };
            if !hit {
                rows.push(users[i].clone());
            }
            i += 1;
        }
        assert(users@.take(users.len() as int) == users@);
        *users = rows;
        true
    }

    /// The user after a change: the flag, the names and the email are
    /// overwritten; the id, the password hash and the creation time stay.
    pub fn update(&self, put_user: &PutUser) -> (row: User)
        ensures
            row@ == (UserView {
                is_admin: Some(put_user.is_admin),
                first_name: put_user.first_name@,
                last_name: put_user.last_name@,
                email: put_user.email@,
                ..self@
            }),
    {
        User {
            id: self.id,
            is_admin: Some(put_user.is_admin),
            first_name: put_user.first_name.clone(),
            last_name: put_user.last_name.clone(),
            email: put_user.email.clone(),
            password: self.password.clone(),
            created_at: copy_opt_text(&self.created_at),
        }
    }

    /// Whether the user holds the admin role.
    pub fn is_admin(&self) -> (admin: bool)
        ensures
            admin == self.holds_admin(),
    {
        match self.is_admin {
            Some(flag) => flag,
            None => false,
        }
    }

    /// The id under which the user owns bookings.
    pub fn owner_id(&self) -> (id: i32)
        ensures
            id == self.spec_owner_id(),
    {
        match self.id {
            Some(id) => id,
            None => 0,
        }
    }
}

} // verus!
