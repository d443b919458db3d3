//! The rows of the store, and the selections that the operations make among
//! them.

use vstd::prelude::*;

pub mod booking;
pub mod room;
pub mod user;

verus! {

/// The characters of an optional text column.
pub open spec fn opt_text(column: Option<String>) -> Option<Seq<char>> {
    match column {
        Some(s) => Some(s@),
        None => None,
    }
}

/// A copy of an optional text column.
pub fn copy_opt_text(column: &Option<String>) -> (copy: Option<String>)
    ensures
        copy == *column,
{
    match column {
        Some(s) => Some(s.clone()),
        None => None,
    }
}

} // verus!
