//! The decision behind each operation. A function here is handed the caller,
//! as the token resolved to one, and the stored rows that bear on the
//! request; it answers with an outcome, or with what is to be persisted
//! before an answer can be given.

use vstd::prelude::*;
use crate::status::Status;

pub mod bookings;
pub mod login;
pub mod rooms;
pub mod users;

verus! {

/// What a request to delete a row comes to before the store is touched.
#[derive(Clone, Copy, Debug, PartialEq, Eq, Structural)]
pub enum Deletion {
    /// No row is stored under the id: there is nothing left to do.
    Absent,
    /// The row with this id is to be deleted.
    Delete(i32),
}

/// The answer to a request to delete, once the store has done its part:
/// `None` where nothing had to be deleted, else whether the store deleted.
pub open spec fn spec_deleted(outcome: Option<bool>) -> Result<Status, Status> {
    match outcome {
        Some(false) => Err(Status::InternalServerError),
        _ => Ok(Status::NoContent),
    }
}

/// The answer to a request to delete, once the store has done its part.
/// A row that was absent from the start counts as deleted.
pub fn deleted(outcome: Option<bool>) -> (answer: Result<Status, Status>)
    ensures
        answer == spec_deleted(outcome),
{
    match outcome {
        Some(false) => Err(Status::InternalServerError),
        _ => Ok(Status::NoContent),
    }
}

} // verus!
