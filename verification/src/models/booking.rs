//! Bookings: the stored row, the form in which one is sent out, the changes
//! that an update carries, and the selections among stored bookings.

use vstd::prelude::*;
use crate::models::room::{room_by_id, Room};
use crate::models::user::{user_by_id, User};
use crate::models::{copy_opt_text, opt_text};
use crate::rows::{
    first_row,
    lemma_filter_none,
    lemma_filter_step,
    lemma_first_where_is,
    lemma_first_where_none,
};

verus! {

/// A booking as stored. `id` and `created_at` are assigned by the store and
/// absent until then. `duration` is the ordinal of the slot: 0 the morning,
/// 1 the afternoon, 2 the whole day. `date` is written `YYYY-MM-DD`.
#[derive(Debug, PartialEq, Eq)]
pub struct Booking {
    pub id: Option<i32>,
    pub reason: String,
    pub duration: i32,
    pub status: String,
    pub date: String,
    pub fk_room_id: i32,
    pub fk_user_id: i32,
    pub created_at: Option<String>,
}

/// A booking by its values.
pub struct BookingView {
    pub id: Option<i32>,
    pub reason: Seq<char>,
    pub duration: i32,
    pub status: Seq<char>,
    pub date: Seq<char>,
    pub fk_room_id: i32,
    pub fk_user_id: i32,
    pub created_at: Option<Seq<char>>,
}

impl View for Booking {
    type V = BookingView;

    open spec fn view(&self) -> BookingView {
        BookingView {
            id: self.id,
            reason: self.reason@,
            duration: self.duration,
            status: self.status@,
            date: self.date@,
            fk_room_id: self.fk_room_id,
            fk_user_id: self.fk_user_id,
            created_at: opt_text(self.created_at),
        }
    }
}

impl Clone for Booking {
    fn clone(&self) -> (copy: Self)
        ensures
            copy == *self,
    {
        Booking {
            id: self.id,
            reason: self.reason.clone(),
            duration: self.duration,
            status: self.status.clone(),
            date: self.date.clone(),
            fk_room_id: self.fk_room_id,
            fk_user_id: self.fk_user_id,
            created_at: copy_opt_text(&self.created_at),
        }
    }
}

/// The changes that an update carries: a column that is `None` stays as it
/// is stored.
#[derive(Debug, PartialEq, Eq)]
pub struct UpdateBooking {
    pub reason: Option<String>,
    pub duration: Option<i32>,
    pub status: Option<String>,
    pub date: Option<String>,
}

/// The changes of an update by their values.
pub struct UpdateBookingView {
    pub reason: Option<Seq<char>>,
    pub duration: Option<i32>,
    pub status: Option<Seq<char>>,
    pub date: Option<Seq<char>>,
}

impl View for UpdateBooking {
    type V = UpdateBookingView;

    open spec fn view(&self) -> UpdateBookingView {
        UpdateBookingView {
            reason: opt_text(self.reason),
            duration: self.duration,
            status: opt_text(self.status),
            date: opt_text(self.date),
        }
    }
}

/// A booking as sent out: with the room and the user in place of their ids.
#[derive(Debug, PartialEq, Eq)]
pub struct SerializeBooking {
    pub id: Option<i32>,
    pub reason: String,
    pub duration: i32,
    pub status: String,
    pub date: String,
    pub room: Room,
    pub user: User,
    pub created_at: Option<String>,
}

/// The status of a booking that nobody has decided on yet.
pub open spec fn pending() -> Seq<char> {
    "Pending"@
}

/// The row that stands for a new booking before the store has seen it.
pub open spec fn new_booking(
    reason: Seq<char>,
    duration: i32,
    date: Seq<char>,
    fk_room_id: i32,
    fk_user_id: i32,
) -> BookingView {
    BookingView {
        id: None,
        reason,
        duration,
        status: pending(),
        date,
        fk_room_id,
        fk_user_id,
        created_at: None,
    }
}

/// A stored column after an update: the new value where one is carried.
pub open spec fn changed<T>(stored: T, change: Option<T>) -> T {
    match change {
        Some(value) => value,
        None => stored,
    }
}

/// A booking after an update.
pub open spec fn updated(row: BookingView, changes: UpdateBookingView) -> BookingView {
    BookingView {
        id: row.id,
        reason: changed(row.reason, changes.reason),
        duration: changed(row.duration, changes.duration),
        status: changed(row.status, changes.status),
        date: changed(row.date, changes.date),
        fk_room_id: row.fk_room_id,
        fk_user_id: row.fk_user_id,
        created_at: row.created_at,
    }
}

/// The first of `bookings` with this id.
pub open spec fn booking_by_id(bookings: Seq<Booking>, id: i32) -> Option<Booking> {
    first_row(bookings, |b: Booking| b.id == Some(id))
}

/// What is left of `bookings` once the one with this id is deleted.
pub open spec fn bookings_without(bookings: Seq<Booking>, id: i32) -> Seq<Booking> {
    bookings.filter(|b: Booking| b.id != Some(id))
}

/// Those of `bookings` that the user with this id owns, in stored order.
pub open spec fn bookings_of_user(bookings: Seq<Booking>, id: i32) -> Seq<Booking> {
    bookings.filter(|b: Booking| b.fk_user_id == id)
}

/// Those of `bookings` that reserve the room with this id, in stored order.
pub open spec fn bookings_in_room(bookings: Seq<Booking>, id: i32) -> Seq<Booking> {
    bookings.filter(|b: Booking| b.fk_room_id == id)
}

/// Those of `bookings` that fall on this date, in stored order.
pub open spec fn bookings_on(bookings: Seq<Booking>, date: Seq<char>) -> Seq<Booking> {
    bookings.filter(|b: Booking| b.date@ == date)
}

/// The form in which a booking is sent out, given the rooms and users to
/// look its references up in: none where either is missing.
pub open spec fn joined(booking: Booking, rooms: Seq<Room>, users: Seq<User>) -> Option<
    SerializeBooking,
> {
    match (room_by_id(rooms, booking.fk_room_id), user_by_id(users, booking.fk_user_id)) {
        (Some(room), Some(user)) => Some(
            SerializeBooking {
                id: booking.id,
                reason: booking.reason,
                duration: booking.duration,
                status: booking.status,
                date: booking.date,
                room,
                user,
                created_at: booking.created_at,
            },
        ),
        _ => None,
    }
}

/// A column of an update, or the stored text where the update carries none.
fn changed_text(stored: &String, change: &Option<String>) -> (text: String)
    ensures
        text@ == changed(stored@, opt_text(*change)),
{
    match change {
        Some(value) => value.clone(),
        None => stored.clone(),
    }
}

impl SerializeBooking {
    /// Puts the room and the user of a booking in place of their ids,
    /// looking them up in `rooms` and `users`. `None` where either is
    /// missing.
    pub fn from_booking(booking: Booking, rooms: &Vec<Room>, users: &Vec<User>) -> (out: Option<
        Self,
    >)
        ensures
            out == joined(booking, rooms@, users@),
    {
        let room = match Room::by_id(rooms, booking.fk_room_id) {
            Some(room) => room,
            None => {
                return None;
            },
        };
        let user = match User::by_id(users, booking.fk_user_id) {
            Some(user) => user,
            None => {
                return None;
            },
        };
        Some(
            SerializeBooking {
                id: booking.id,
                reason: booking.reason,
                duration: booking.duration,
                status: booking.status,
                date: booking.date,
                room,
                user,
                created_at: booking.created_at,
            },
        )
    }
}

impl Booking {
    /// The row for a new booking, with the status `Pending`. The caller
    /// persists it.
    pub fn create(reason: &str, duration: i32, date: &str, fk_room_id: i32, fk_user_id: i32) -> (row:
        Booking)
        ensures
            row@ == new_booking(reason@, duration, date@, fk_room_id, fk_user_id),
    {
        Booking {
            id: None,
            reason: reason.to_owned(),
            duration,
            status: "Pending".to_owned(),
            date: date.to_owned(),
            fk_room_id,
            fk_user_id,
            created_at: None,
        }
    }

    /// All of `bookings`.
    pub fn all(bookings: &Vec<Booking>) -> (rows: Vec<Booking>)
        ensures
            rows@ == bookings@,
    {
        let mut rows: Vec<Booking> = Vec::new();
        let mut i: usize = 0;
        while i < bookings.len()
            invariant
                i <= bookings.len(),
                rows@ == bookings@.take(i as int),
            decreases bookings.len() - i,
        {
            rows.push(bookings[i].clone());
            i += 1;
        }
        rows
    }

    /// The first of `bookings` with this id.
    pub fn by_id(bookings: &Vec<Booking>, id: i32) -> (found: Option<Booking>)
        ensures
            found == booking_by_id(bookings@, id),
    {
        let ghost wanted = |b: Booking| b.id == Some(id);
        let mut i: usize = 0;
        while i < bookings.len()
            invariant
                i <= bookings.len(),
                wanted == (|b: Booking| b.id == Some(id)),
                forall|j: int| 0 <= j < i ==> !wanted(#[trigger] bookings@[j]),
            decreases bookings.len() - i,
        {
            let hit = match bookings[i].id {
                Some(stored) => stored == id,
                None => false,
            };
            if hit {
                proof {
                    lemma_first_where_is(bookings@, wanted, i as int);
                }
                return Some(bookings[i].clone());
            }
            i += 1;
        }
        proof {
            lemma_first_where_none(bookings@, wanted);
        }
        None
    }

    /// Those of `bookings` that the user with this id owns.
    pub fn by_user_id(bookings: &Vec<Booking>, id: i32) -> (rows: Vec<Booking>)
        ensures
            rows@ == bookings_of_user(bookings@, id),
    {
        let ghost wanted = |b: Booking| b.fk_user_id == id;
        let mut rows: Vec<Booking> = Vec::new();
        let mut i: usize = 0;
        proof {
            lemma_filter_none(bookings@, wanted);
        }
        while i < bookings.len()
            invariant
                i <= bookings.len(),
                wanted == (|b: Booking| b.fk_user_id == id),
                rows@ == bookings@.take(i as int).filter(wanted),
            decreases bookings.len() - i,
        {
            proof {
                lemma_filter_step(bookings@, wanted, i as int);
            }
            if bookings[i].fk_user_id == id {
                rows.push(bookings[i].clone());
            }
            i += 1;
        }
        assert(bookings@.take(bookings.len() as int) == bookings@);
        rows
    }

    /// Those of `bookings` that reserve the room with this id.
    pub fn by_room_id(bookings: &Vec<Booking>, id: i32) -> (rows: Vec<Booking>)
        ensures
            rows@ == bookings_in_room(bookings@, id),
    {
        let ghost wanted = |b: Booking| b.fk_room_id == id;
        let mut rows: Vec<Booking> = Vec::new();
        let mut i: usize = 0;
        proof {
            lemma_filter_none(bookings@, wanted);
        }
        while i < bookings.len()
            invariant
                i <= bookings.len(),
                wanted == (|b: Booking| b.fk_room_id == id),
                rows@ == bookings@.take(i as int).filter(wanted),
            decreases bookings.len() - i,
        {
            proof {
                lemma_filter_step(bookings@, wanted, i as int);
            }
            if bookings[i].fk_room_id == id {
                rows.push(bookings[i].clone());
            }
            i += 1;
        }
        assert(bookings@.take(bookings.len() as int) == bookings@);
        rows
    }

    /// Those of `bookings` that fall on this date.
    pub fn by_date(bookings: &Vec<Booking>, date: &str) -> (rows: Vec<Booking>)
        ensures
            rows@ == bookings_on(bookings@, date@),
    {
        let ghost wanted = |b: Booking| b.date@ == date@;
        let probe = date.to_owned();
        let mut rows: Vec<Booking> = Vec::new();
        let mut i: usize = 0;
        proof {
            lemma_filter_none(bookings@, wanted);
        }
        while i < bookings.len()
            invariant
                i <= bookings.len(),
                probe@ == date@,
                wanted == (|b: Booking| b.date@ == date@),
                rows@ == bookings@.take(i as int).filter(wanted),
            decreases bookings.len() - i,
        {
            proof {
                lemma_filter_step(bookings@, wanted, i as int);
            }
            if bookings[i].date == probe {
                rows.push(bookings[i].clone());
            }
            i += 1;
        }
        assert(bookings@.take(bookings.len() as int) == bookings@);
        rows
    }

    /// Deletes the booking with this id from `bookings`. Deleting what is
    /// not there succeeds too.
    pub fn delete(bookings: &mut Vec<Booking>, id: i32) -> (done: bool)
        ensures
            done,
            final(bookings)@ == bookings_without(old(bookings)@, id),
    {
        let ghost wanted = |b: Booking| b.id != Some(id);
        let mut rows: Vec<Booking> = Vec::new();
        let mut i: usize = 0;
        proof {
            lemma_filter_none(bookings@, wanted);
        }
        while i < bookings.len()
            invariant
                i <= bookings.len(),
                bookings@ == old(bookings)@,
                wanted == (|b: Booking| b.id != Some(id)),
                rows@ == bookings@.take(i as int).filter(wanted),
            decreases bookings.len() - i,
        {
            proof {
                lemma_filter_step(bookings@, wanted, i as int);
            }
            let hit = match bookings[i].id {
                Some(stored) => stored == id,
                None => false,
            };
            if !hit {
                rows.push(bookings[i].clone());
            }
            i += 1;
        }
        assert(bookings@.take(bookings.len() as int) == bookings@);
        *bookings = rows;
        true
    }

    /// The booking after an update: each column that `changes` carries is
    /// overwritten, the others stay.
    pub fn update(&self, changes: &UpdateBooking) -> (row: Booking)
        ensures
            row@ == updated(self@, changes@),
    {
        Booking {
            id: self.id,
            reason: changed_text(&self.reason, &changes.reason),
            duration: match changes.duration {
                Some(duration) => duration,
                None => self.duration,
            },
            status: changed_text(&self.status, &changes.status),
            date: changed_text(&self.date, &changes.date),
            fk_room_id: self.fk_room_id,
            fk_user_id: self.fk_user_id,
            created_at: copy_opt_text(&self.created_at),
        }
    }

    /// The booking with another status.
    pub fn update_status(&self, status: &str) -> (row: Booking)
        ensures
            row@ == (BookingView { status: status@, ..self@ }),
    {
        Booking {
            id: self.id,
            reason: self.reason.clone(),
            duration: self.duration,
            status: status.to_owned(),
            date: self.date.clone(),
            fk_room_id: self.fk_room_id,
            fk_user_id: self.fk_user_id,
            created_at: copy_opt_text(&self.created_at),
        }
    }
}

} // verus!
