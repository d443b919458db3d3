//! Listing, adding, changing and removing users. All of it is for admins.

use vstd::prelude::*;
use crate::auth::argon2_accepts;
use crate::guard::can_manage_users;
use crate::models::user::{new_user, user_by_email, user_by_id, PostUser, User};
use crate::routes::Deletion;
use crate::status::Status;

verus! {

/// Why a caller may not manage users, if they may not: nobody is known, or
/// the one who is known is no admin.
pub open spec fn refusal(caller: Option<User>) -> Option<Status> {
    match caller {
        None => Some(Status::Unauthorized),
        Some(user) => if user.holds_admin() {
            None
        } else {
            Some(Status::Forbidden)
        },
    }
}

/// Turns away a caller who may not manage users.
fn refuse(caller: &Option<User>) -> (status: Option<Status>)
    ensures
        status == refusal(*caller),
{
    match caller {
        None => Some(Status::Unauthorized),
        Some(user) => if can_manage_users(user) {
            None
        } else {
            Some(Status::Forbidden)
        },
    }
}

/// Lists all users, for an admin.
pub fn get_users(caller: &Option<User>, users: &Vec<User>) -> (answer: Result<Vec<User>, Status>)
    ensures
        match refusal(*caller) {
            Some(status) => answer == Err::<Vec<User>, Status>(status),
            None => answer matches Ok(list) && list@ == users@,
        },
{
    if let Some(status) = refuse(caller) {
        return Err(status);
    }
    Ok(User::all(users))
}

/// Decides on a request to add a user, for an admin. An email that a
/// stored user holds is a conflict. Otherwise `Ok` holds the row that the
/// caller of this function persists, with a hash that the password
/// verifies against. Where hashing fails the answer is an internal error.
pub fn post_users(post_user: &PostUser, caller: &Option<User>, users: &Vec<User>) -> (step: Result<
    User,
    Status,
>)
    ensures
        match refusal(*caller) {
            Some(status) => step == Err::<User, Status>(status),
            None => if user_by_email(users@, post_user.email@) is Some {
                step == Err::<User, Status>(Status::Conflict)
            } else {
                match step {
                    Ok(row) => {
                        &&& row@ == new_user(
                            post_user.is_admin,
                            post_user.first_name@,
                            post_user.last_name@,
                            post_user.email@,
                            row.password@,
                        )
                        &&& argon2_accepts(post_user.password@, row.password@)
                    },
                    Err(status) => status == Status::InternalServerError,
                }
            },
        },
{
    if let Some(status) = refuse(caller) {
        return Err(status);
    }
    if User::by_email(users, post_user.email.as_str()).is_some() {
        return Err(Status::Conflict);
    }
    match User::create_hash(
        post_user.is_admin,
        post_user.first_name.as_str(),
        post_user.last_name.as_str(),
        post_user.email.as_str(),
        post_user.password.as_str(),
    ) {
        Some(row) => Ok(row),
        None => Err(Status::InternalServerError),
    }
}

/// What a request to change the user `id` comes to: whether the change is
/// to be persisted.
pub open spec fn spec_put_users(id: i32, caller: Option<User>, users: Seq<User>) -> Result<
    (),
    Status,
> {
    match refusal(caller) {
        Some(status) => Err(status),
        None => if user_by_id(users, id) is None {
            Err(Status::NotFound)
        } else {
            Ok(())
        },
    }
}

/// Decides on a request to change the user `id`, for an admin. On `Ok` the
/// caller of this function persists the change.
pub fn put_users(id: i32, caller: &Option<User>, users: &Vec<User>) -> (step: Result<(), Status>)
    ensures
        step == spec_put_users(id, *caller, users@),
{
    if let Some(status) = refuse(caller) {
        return Err(status);
    }
    if User::by_id(users, id).is_none() {
        return Err(Status::NotFound);
    }
    Ok(())
}

/// Answers with the user as the store now holds it, or with an internal
/// error where the store failed.
pub fn saved_user(stored: Option<User>) -> (answer: Result<User, Status>)
    ensures
        answer == match stored {
            Some(user) => Ok::<User, Status>(user),
            None => Err::<User, Status>(Status::InternalServerError),
        },
{
    match stored {
        Some(user) => Ok(user),
        None => Err(Status::InternalServerError),
    }
}

/// What a request to remove the user `id` comes to.
pub open spec fn spec_delete_users(id: i32, caller: Option<User>, users: Seq<User>) -> Result<
    Deletion,
    Status,
> {
    match refusal(caller) {
        Some(status) => Err(status),
        None => if user_by_id(users, id) is None {
            Ok(Deletion::Absent)
        } else {
            Ok(Deletion::Delete(id))
        },
    }
}

/// Decides on a request to remove the user `id`, for an admin. A user who
/// is not stored needs no removing.
pub fn delete_users(id: i32, caller: &Option<User>, users: &Vec<User>) -> (step: Result<
    Deletion,
    Status,
>)
    ensures
        step == spec_delete_users(id, *caller, users@),
{
    if let Some(status) = refuse(caller) {
        return Err(status);
    }
    if User::by_id(users, id).is_none() {
        return Ok(Deletion::Absent);
    }
    Ok(Deletion::Delete(id))
}

} // verus!
