//! How an operation ends, as far as the caller of the service can tell.

use vstd::prelude::*;

verus! {

/// The outcome classes that the operations answer with.
#[derive(Clone, Copy, Debug, PartialEq, Eq, Structural)]
pub enum Status {
    /// Done, with nothing to send back.
    NoContent,
    /// No credential, or one that does not verify.
    Unauthorized,
    /// A verified identity without the role or ownership the action needs.
    Forbidden,
    /// The room, user or booking that the request names is not stored.
    NotFound,
    /// The slot overlaps a stored booking, or the email is taken.
    Conflict,
    /// Hashing, signing or the store failed.
    InternalServerError,
}

impl Status {
    /// The HTTP status code of the outcome.
    pub open spec fn spec_code(self) -> int {
        match self {
            Status::NoContent => 204,
            Status::Unauthorized => 401,
            Status::Forbidden => 403,
            Status::NotFound => 404,
            Status::Conflict => 409,
            Status::InternalServerError => 500,
        }
    }

    pub fn code(self) -> (code: u16)
        ensures
            code == self.spec_code(),
    {
        match self {
            Status::NoContent => 204,
            Status::Unauthorized => 401,
            Status::Forbidden => 403,
            Status::NotFound => 404,
            Status::Conflict => 409,
            Status::InternalServerError => 500,
        }
    }
}

} // verus!
