//! Listing rooms.

use vstd::prelude::*;
use crate::models::booking::Booking;
use crate::models::room::{room_response, Room, RoomResponse};
use crate::models::user::User;
use crate::status::Status;

verus! {

/// Lists every room with the bookings that reserve it, for any known
/// caller.
pub fn get_rooms(caller: &Option<User>, rooms: &Vec<Room>, bookings: &Vec<Booking>) -> (answer:
    Result<Vec<RoomResponse>, Status>)
    ensures
        caller is None ==> answer == Err::<Vec<RoomResponse>, Status>(Status::Unauthorized),
        caller is Some ==> (answer matches Ok(list) && list.len() == rooms.len() && forall|i: int|
            0 <= i < rooms.len() ==> (#[trigger] list[i]).parts() == room_response(
                rooms[i],
                bookings@,
            )),
{
    match caller {
        Some(_) => Ok(RoomResponse::new(rooms, bookings)),
        None => Err(Status::Unauthorized),
    }
}

} // verus!
