//! Rooms: the stored row and the selection by id.

use vstd::prelude::*;
use crate::models::booking::{bookings_in_room, Booking};
use crate::rows::{
    first_row,
    lemma_filter_none,
    lemma_filter_step,
    lemma_first_where_is,
    lemma_first_where_none,
};

verus! {

/// A room as stored. `id` is assigned by the store and absent until then.
#[derive(Debug, PartialEq, Eq)]
pub struct Room {
    pub id: Option<i32>,
    pub name: String,
}

/// A room by its values.
pub struct RoomView {
    pub id: Option<i32>,
    pub name: Seq<char>,
}

impl View for Room {
    type V = RoomView;

    open spec fn view(&self) -> RoomView {
        RoomView { id: self.id, name: self.name@ }
    }
}

impl Clone for Room {
    fn clone(&self) -> (copy: Self)
        ensures
            copy == *self,
    {
        Room { id: self.id, name: self.name.clone() }
    }
}

/// The first of `rooms` with this id.
pub open spec fn room_by_id(rooms: Seq<Room>, id: i32) -> Option<Room> {
    first_row(rooms, |r: Room| r.id == Some(id))
}

/// What is left of `rooms` once the one with this id is deleted.
pub open spec fn rooms_without(rooms: Seq<Room>, id: i32) -> Seq<Room> {
    rooms.filter(|r: Room| r.id != Some(id))
}

impl Room {
    /// The id by which bookings refer to the room: the stored id, or 0
    /// while the store has assigned none.
    pub open spec fn spec_key(&self) -> i32 {
        match self.id {
            Some(id) => id,
            None => 0,
        }
    }

    /// The row for a new room. The caller persists it.
    pub fn create(name: &str) -> (row: Room)
        ensures
            row@ == (RoomView { id: None, name: name@ }),
    {
        Room { id: None, name: name.to_owned() }
    }

    /// The first of `rooms` with this id.
    pub fn by_id(rooms: &Vec<Room>, id: i32) -> (found: Option<Room>)
        ensures
            found == room_by_id(rooms@, id),
    {
        let ghost wanted = |r: Room| r.id == Some(id);
        let mut i: usize = 0;
        while i < rooms.len()
            invariant
                i <= rooms.len(),
                wanted == (|r: Room| r.id == Some(id)),
                forall|j: int| 0 <= j < i ==> !wanted(#[trigger] rooms@[j]),
            decreases rooms.len() - i,
        {
            let hit = match rooms[i].id {
                Some(stored) => stored == id,
                None => false,
            };
            if hit {
                proof {
                    lemma_first_where_is(rooms@, wanted, i as int);
                }
                return Some(rooms[i].clone());
            }
            i += 1;
        }
        proof {
            lemma_first_where_none(rooms@, wanted);
        }
        None
    }

    /// All of `rooms`.
    pub fn all(rooms: &Vec<Room>) -> (rows: Vec<Room>)
        ensures
            rows@ == rooms@,
    {
        let mut rows: Vec<Room> = Vec::new();
        let mut i: usize = 0;
        while i < rooms.len()
            invariant
                i <= rooms.len(),
                rows@ == rooms@.take(i as int),
            decreases rooms.len() - i,
        {
            rows.push(rooms[i].clone());
            i += 1;
        }
        rows
    }

    /// Deletes the room with this id from `rooms`. Deleting what is not
    /// there succeeds too.
    pub fn delete(rooms: &mut Vec<Room>, id: i32) -> (done: bool)
        ensures
            done,
            final(rooms)@ == rooms_without(old(rooms)@, id),
    {
        let ghost wanted = |r: Room| r.id != Some(id);
        let mut rows: Vec<Room> = Vec::new();
        let mut i: usize = 0;
        proof {
            lemma_filter_none(rooms@, wanted);
        }
        while i < rooms.len()
            invariant
                i <= rooms.len(),
                rooms@ == old(rooms)@,
                wanted == (|r: Room| r.id != Some(id)),
                rows@ == rooms@.take(i as int).filter(wanted),
            decreases rooms.len() - i,
        {
            proof {
                lemma_filter_step(rooms@, wanted, i as int);
            }
            let hit = match rooms[i].id {
                Some(stored) => stored == id,
                None => false,
            };
            if !hit {
                rows.push(rooms[i].clone());
            }
            i += 1;
        }
        assert(rooms@.take(rooms.len() as int) == rooms@);
        *rooms = rows;
        true
    }

    /// The id by which bookings refer to the room.
    pub fn key(&self) -> (id: i32)
        ensures
            id == self.spec_key(),
    {
        match self.id {
            Some(id) => id,
            None => 0,
        }
    }
}

/// A room with the bookings that reserve it.
#[derive(Debug, PartialEq, Eq)]
pub struct RoomResponse {
    pub room: Room,
    pub bookings: Vec<Booking>,
}

/// A room with those of `bookings` that reserve it.
pub open spec fn room_response(room: Room, bookings: Seq<Booking>) -> (Room, Seq<Booking>) {
    (room, bookings_in_room(bookings, room.spec_key()))
}

impl RoomResponse {
    /// The room and its bookings by their values.
    pub open spec fn parts(&self) -> (Room, Seq<Booking>) {
        (self.room, self.bookings@)
    }

    /// Each of `rooms`, in stored order, with those of `bookings` that
    /// reserve it.
    pub fn new(rooms: &Vec<Room>, bookings: &Vec<Booking>) -> (out: Vec<Self>)
        ensures
            out.len() == rooms.len(),
            forall|i: int|
                0 <= i < rooms.len() ==> (#[trigger] out[i]).parts() == room_response(
                    rooms[i],
                    bookings@,
                ),
    {
        let mut out: Vec<RoomResponse> = Vec::new();
        let mut i: usize = 0;
        while i < rooms.len()
            invariant
                i <= rooms.len(),
                out.len() == i,
                forall|j: int|
                    0 <= j < i ==> (#[trigger] out[j]).parts() == room_response(
                        rooms[j],
                        bookings@,
                    ),
            decreases rooms.len() - i,
        {
            let room = rooms[i].clone();
            let reserved = Booking::by_room_id(bookings, room.key());
            out.push(RoomResponse { room, bookings: reserved });
            i += 1;
        }
        out
    }
}

} // verus!
