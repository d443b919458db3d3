//! Registering, logging in, and asking who one is.

use vstd::prelude::*;
use crate::auth::{
    argon2_accepts,
    encode_token,
    encode_token_at,
    issued,
    spec_encode_token,
    verify_password,
};
use crate::models::user::{new_user, user_by_email, User};
use crate::status::Status;

verus! {

/// What is sent in to log in.
#[derive(Debug, PartialEq, Eq)]
pub struct Login {
    pub email: String,
    pub password: String,
}

/// What a login or a registration answers with: the user, and a token that
/// proves their id.
#[derive(Debug, PartialEq, Eq)]
pub struct LoginResponse {
    pub user: User,
    pub token: String,
}

/// What is sent in to register.
#[derive(Debug, PartialEq, Eq)]
pub struct Register {
    pub first_name: String,
    pub last_name: String,
    pub email: String,
    pub password: String,
}

impl LoginResponse {
    /// The user, and the characters of the token.
    pub open spec fn parts(&self) -> (User, Seq<char>) {
        (self.user, self.token@)
    }
}

/// The session that a user gets at `now`: the user with a token for their
/// id. There is none for a row without an id, nor where no token can be
/// issued.
pub open spec fn spec_session(user: User, secret: Seq<char>, now: int) -> Result<
    (User, Seq<char>),
    Status,
> {
    match user.id {
        Some(id) => match spec_encode_token(id, secret, now) {
            Some(token) => Ok((user, token)),
            None => Err(Status::InternalServerError),
        },
        None => Err(Status::InternalServerError),
    }
}

/// Whether `answer` is what `expected` says, a response standing for its
/// parts.
pub open spec fn answers(
    answer: Result<LoginResponse, Status>,
    expected: Result<(User, Seq<char>), Status>,
) -> bool {
    match answer {
        Ok(response) => expected == Ok::<(User, Seq<char>), Status>(response.parts()),
        Err(status) => expected == Err::<(User, Seq<char>), Status>(status),
    }
}

/// Opens a session for `user` at the instant `now`.
pub fn session_at(user: User, secret: &str, now: i64) -> (answer: Result<LoginResponse, Status>)
    ensures
        answers(answer, spec_session(user, secret@, now as int)),
        answer matches Ok(response) ==> issued(
            Some(response.token),
            user.id->0,
            secret@,
            now as int,
        ),
{
    let id = match user.id {
        Some(id) => id,
        None => {
            return Err(Status::InternalServerError);
        },
    };
    match encode_token_at(id, secret, now) {
        Some(token) => Ok(LoginResponse { user, token }),
        None => Err(Status::InternalServerError),
    }
}

/// Opens a session for `user` now: the user, with a token that proves
/// their id for the next 24 hours.
pub fn session(user: User, secret: &str) -> (answer: Result<LoginResponse, Status>)
    ensures
        exists|now: int| answers(answer, #[trigger] spec_session(user, secret@, now)),
        user.id is None ==> answer == Err::<LoginResponse, Status>(Status::InternalServerError),
        answer matches Ok(response) ==> response.user == user && exists|now: int| #[trigger]
            issued(Some(response.token), user.id->0, secret@, now),
{
    let id = match user.id {
        Some(id) => id,
        None => {
            return Err(Status::InternalServerError);
        },
    };
    let token = encode_token(id, secret);
    let ghost now = choose|now: int| #[trigger] issued(token, id, secret@, now);
    let answer = match token {
        Some(token) => Ok(LoginResponse { user, token }),
        None => Err(Status::InternalServerError),
    };
    assert(answers(answer, spec_session(user, secret@, now)));
    answer
}

/// The answer to a login at `now`: a session for the first user with the
/// email, if the password matches the stored hash.
pub open spec fn spec_post_login(login: Login, users: Seq<User>, secret: Seq<char>, now: int)
    -> Result<(User, Seq<char>), Status> {
    match user_by_email(users, login.email@) {
        Some(user) => if argon2_accepts(login.password@, user.password@) {
            spec_session(user, secret, now)
        } else {
            Err(Status::Unauthorized)
        },
        None => Err(Status::Unauthorized),
    }
}

/// Logs in at the instant `now`.
pub fn post_login_at(login: &Login, users: &Vec<User>, secret: &str, now: i64) -> (answer: Result<
    LoginResponse,
    Status,
>)
    ensures
        answers(answer, spec_post_login(*login, users@, secret@, now as int)),
{
    match User::by_email(users, login.email.as_str()) {
        Some(user) => {
            if verify_password(login.password.as_str(), user.password.as_str()) {
                session_at(user, secret, now)
            } else {
                Err(Status::Unauthorized)
            }
        },
        None => Err(Status::Unauthorized),
    }
}

/// Logs in now. Whatever the clock says, an unknown email and a password
/// that does not match the stored hash are turned away as unauthorized.
pub fn post_login(login: &Login, users: &Vec<User>, secret: &str) -> (answer: Result<
    LoginResponse,
    Status,
>)
    ensures
        exists|now: int| answers(answer, #[trigger] spec_post_login(*login, users@, secret@, now)),
        match user_by_email(users@, login.email@) {
            Some(user) => !argon2_accepts(login.password@, user.password@) ==> answer == Err::<
                LoginResponse,
                Status,
            >(Status::Unauthorized),
            None => answer == Err::<LoginResponse, Status>(Status::Unauthorized),
        },
{
    match User::by_email(users, login.email.as_str()) {
        Some(user) => {
            if verify_password(login.password.as_str(), user.password.as_str()) {
                let answer = session(user, secret);
                proof {
                    let now = choose|now: int|
                        answers(answer, #[trigger] spec_session(user, secret@, now));
                    assert(answers(answer, spec_post_login(*login, users@, secret@, now)));
                }
                answer
            } else {
                assert(answers(
                    Err(Status::Unauthorized),
                    spec_post_login(*login, users@, secret@, 0),
                ));
                Err(Status::Unauthorized)
            }
        },
        None => Err(Status::Unauthorized),
    }
}

/// Decides on a registration. An email that a stored user holds is a
/// conflict. Otherwise `Ok` holds the row that the caller of this function
/// persists: it carries a hash that the password verifies against, and is
/// an admin exactly when no user is stored yet. Where hashing fails the
/// answer is an internal error.
pub fn post_register(register: &Register, users: &Vec<User>) -> (step: Result<User, Status>)
    ensures
        user_by_email(users@, register.email@) is Some ==> step == Err::<User, Status>(
            Status::Conflict,
        ),
        user_by_email(users@, register.email@) is None ==> match step {
            Ok(row) => {
                &&& row@ == new_user(
                    users.len() == 0,
                    register.first_name@,
                    register.last_name@,
                    register.email@,
                    row.password@,
                )
                &&& argon2_accepts(register.password@, row.password@)
            },
            Err(status) => status == Status::InternalServerError,
        },
{
    if User::by_email(users, register.email.as_str()).is_some() {
        return Err(Status::Conflict);
    }
    let first = match User::count(users) {
        Some(n) => n == 0,
        None => {
            return Err(Status::InternalServerError);
        },
    };
    match User::create_hash(
        first,
        register.first_name.as_str(),
        register.last_name.as_str(),
        register.email.as_str(),
        register.password.as_str(),
    ) {
        Some(row) => Ok(row),
        None => Err(Status::InternalServerError),
    }
}

/// Answers a registration once the store has persisted the user, or failed
/// to: with a session for the user as stored, or an internal error.
pub fn registered(stored: Option<User>, secret: &str) -> (answer: Result<LoginResponse, Status>)
    ensures
        match stored {
            Some(user) => exists|now: int|
                answers(answer, #[trigger] spec_session(user, secret@, now)),
            None => answer == Err::<LoginResponse, Status>(Status::InternalServerError),
        },
{
    match stored {
        Some(user) => session(user, secret),
        None => Err(Status::InternalServerError),
    }
}

/// Answers the question who the caller is.
pub fn get_login(caller: Option<User>) -> (answer: Result<User, Status>)
    ensures
        answer == match caller {
            Some(user) => Ok::<User, Status>(user),
            None => Err::<User, Status>(Status::Unauthorized),
        },
{
    match caller {
        Some(user) => Ok(user),
        None => Err(Status::Unauthorized),
    }
}

/// Whoever is stored under an email with the hash of a password, and has
/// an id, is let in with that password: the answer is their session, and
/// is not `Unauthorized`.
pub proof fn lemma_right_password_opens_session(
    login: Login,
    users: Seq<User>,
    secret: Seq<char>,
    now: int,
)
    requires
        user_by_email(users, login.email@) matches Some(user) && argon2_accepts(
            login.password@,
            user.password@,
        ),
    ensures
        spec_post_login(login, users, secret, now) == spec_session(
            user_by_email(users, login.email@)->0,
            secret,
            now,
        ),
        spec_post_login(login, users, secret, now) != Err::<(User, Seq<char>), Status>(
            Status::Unauthorized,
        ),
{
}

} // verus!
