//! Listing, creating, changing and cancelling bookings.

use vstd::prelude::*;
use crate::conflict::{
    find_conflict,
    first_conflict,
    lemma_accepted_booking_keeps_rooms_free,
    lemma_kept_bookings_keep_rooms_free,
    no_double_booking,
    valid_slot,
};
use crate::guard::{can_mutate_booking, may_mutate_booking};
use crate::models::booking::{
    booking_by_id,
    bookings_of_user,
    bookings_without,
    joined,
    new_booking,
    updated,
    Booking,
    BookingView,
    SerializeBooking,
    UpdateBooking,
    UpdateBookingView,
};
use crate::models::opt_text;
use crate::models::room::{room_by_id, Room};
use crate::models::user::User;
use crate::routes::Deletion;
use crate::status::Status;

verus! {

/// What is sent in to ask for a booking.
#[derive(Debug, PartialEq, Eq)]
pub struct PostBooking {
    pub reason: String,
    /// 0 the morning, 1 the afternoon, 2 the whole day.
    pub duration: i32,
    /// `YYYY-MM-DD`.
    pub date: String,
    pub room_id: i32,
}

/// The bookings that a user gets to see: all of them for an admin, their
/// own for anyone else.
pub open spec fn visible_bookings(user: User, bookings: Seq<Booking>) -> Seq<Booking> {
    if user.holds_admin() {
        bookings
    } else {
        bookings_of_user(bookings, user.spec_owner_id())
    }
}

/// The bookings in the form in which they are sent out, in stored order;
/// one whose room or user is missing is left out.
pub open spec fn sent_out(bookings: Seq<Booking>, rooms: Seq<Room>, users: Seq<User>) -> Seq<
    SerializeBooking,
> {
    bookings.filter_map(|b: Booking| joined(b, rooms, users))
}

/// The answer to a request for the list of bookings.
pub open spec fn spec_get_bookings(
    caller: Option<User>,
    bookings: Seq<Booking>,
    rooms: Seq<Room>,
    users: Seq<User>,
) -> Result<Seq<SerializeBooking>, Status> {
    match caller {
        None => Err(Status::Unauthorized),
        Some(user) => match user.is_admin {
            None => Err(Status::InternalServerError),
            Some(_) => Ok(sent_out(visible_bookings(user, bookings), rooms, users)),
        },
    }
}

/// Lists the bookings that the caller gets to see: all of them for an
/// admin, their own for anyone else. A caller whose row does not say
/// whether they are an admin gets an internal error.
pub fn get_bookings(
    caller: &Option<User>,
    bookings: &Vec<Booking>,
    rooms: &Vec<Room>,
    users: &Vec<User>,
) -> (answer: Result<Vec<SerializeBooking>, Status>)
    ensures
        match answer {
            Ok(list) => spec_get_bookings(*caller, bookings@, rooms@, users@) == Ok::<
                Seq<SerializeBooking>,
                Status,
            >(list@),
            Err(status) => spec_get_bookings(*caller, bookings@, rooms@, users@) == Err::<
                Seq<SerializeBooking>,
                Status,
            >(status),
        },
{
    let user = match caller {
        Some(user) => user,
        None => {
            return Err(Status::Unauthorized);
        },
    };
    let visible = match user.is_admin {
        Some(true) => Booking::all(bookings),
        Some(false) => Booking::by_user_id(bookings, user.owner_id()),
        None => {
            return Err(Status::InternalServerError);
        },
    };
    let ghost join = |b: Booking| joined(b, rooms@, users@);
    let mut list: Vec<SerializeBooking> = Vec::new();
    let mut i: usize = 0;
    while i < visible.len()
        invariant
            i <= visible.len(),
            join == (|b: Booking| joined(b, rooms@, users@)),
            list@ == visible@.take(i as int).filter_map(join),
        decreases visible.len() - i,
    {
        proof {
            assert(visible@.take(i + 1).drop_last() == visible@.take(i as int));
        }
        match SerializeBooking::from_booking(visible[i].clone(), rooms, users) {
            Some(out) => {
                list.push(out);
            },
            None => {},
        }
        i += 1;
    }
    assert(visible@.take(visible.len() as int) == visible@);
    Ok(list)
}

/// What a request for a booking comes to: the row to persist, or why there
/// is none. The caller must be known and the room must exist; then the
/// request is turned down exactly when a stored booking of that room on
/// that date clashes with it.
pub open spec fn spec_post_bookings(
    caller: Option<User>,
    rooms: Seq<Room>,
    bookings: Seq<Booking>,
    post: PostBooking,
) -> Result<BookingView, Status> {
    match caller {
        None => Err(Status::Unauthorized),
        Some(user) => if room_by_id(rooms, post.room_id) is None {
            Err(Status::NotFound)
        } else if first_conflict(bookings, post.room_id, post.date@, post.duration) is Some {
            Err(Status::Conflict)
        } else {
            Ok(
                new_booking(
                    post.reason@,
                    post.duration,
                    post.date@,
                    post.room_id,
                    user.spec_owner_id(),
                ),
            )
        },
    }
}

/// Decides on a request for a booking. `Ok` holds the row that the caller
/// of this function persists: pending, and owned by the caller of the
/// service.
pub fn post_bookings(
    caller: &Option<User>,
    rooms: &Vec<Room>,
    bookings: &Vec<Booking>,
    post: &PostBooking,
) -> (step: Result<Booking, Status>)
    ensures
        match step {
            Ok(row) => spec_post_bookings(*caller, rooms@, bookings@, *post) == Ok::<
                BookingView,
                Status,
            >(row@),
            Err(status) => spec_post_bookings(*caller, rooms@, bookings@, *post) == Err::<
                BookingView,
                Status,
            >(status),
        },
{
    let user = match caller {
        Some(user) => user,
        None => {
            return Err(Status::Unauthorized);
        },
    };
    if Room::by_id(rooms, post.room_id).is_none() {
        return Err(Status::NotFound);
    }
    if find_conflict(bookings, post.room_id, post.date.as_str(), post.duration).is_some() {
        return Err(Status::Conflict);
    }
    Ok(
        Booking::create(
            post.reason.as_str(),
            post.duration,
            post.date.as_str(),
            post.room_id,
            user.owner_id(),
        ),
    )
}

/// The answer once the store has persisted a booking, or failed to.
pub open spec fn spec_booking_response(stored: Option<Booking>, rooms: Seq<Room>, users: Seq<User>)
    -> Result<SerializeBooking, Status> {
    match stored {
        Some(booking) => match joined(booking, rooms, users) {
            Some(out) => Ok(out),
            None => Err(Status::InternalServerError),
        },
        None => Err(Status::InternalServerError),
    }
}

/// Answers with the booking as the store now holds it, `stored`, in the
/// form in which it is sent out. Where the store failed, or the booking's
/// room or user is missing, the answer is an internal error.
pub fn booking_response(stored: Option<Booking>, rooms: &Vec<Room>, users: &Vec<User>) -> (answer:
    Result<SerializeBooking, Status>)
    ensures
        answer == spec_booking_response(stored, rooms@, users@),
{
    match stored {
        Some(booking) => match SerializeBooking::from_booking(booking, rooms, users) {
            Some(out) => Ok(out),
            None => Err(Status::InternalServerError),
        },
        None => Err(Status::InternalServerError),
    }
}

/// What a request to cancel a booking comes to.
pub open spec fn spec_delete_bookings(id: i32, caller: Option<User>, bookings: Seq<Booking>)
    -> Result<Deletion, Status> {
    match caller {
        None => Err(Status::Unauthorized),
        Some(user) => match booking_by_id(bookings, id) {
            None => Ok(Deletion::Absent),
            Some(booking) => if may_mutate_booking(&user, &booking) {
                Ok(Deletion::Delete(id))
            } else {
                Err(Status::Forbidden)
            },
        },
    }
}

/// Decides on a request to cancel the booking `id`. A booking that is not
/// stored needs no cancelling; a stored one is cancelled for its owner and
/// for an admin, and for nobody else.
pub fn delete_bookings(id: i32, caller: &Option<User>, bookings: &Vec<Booking>) -> (step: Result<
    Deletion,
    Status,
>)
    ensures
        step == spec_delete_bookings(id, *caller, bookings@),
{
    let user = match caller {
        Some(user) => user,
        None => {
            return Err(Status::Unauthorized);
        },
    };
    let booking = match Booking::by_id(bookings, id) {
        Some(booking) => booking,
        None => {
            return Ok(Deletion::Absent);
        },
    };
    if can_mutate_booking(user, &booking) {
        Ok(Deletion::Delete(id))
    } else {
        Err(Status::Forbidden)
    }
}

/// A text column of an update as it takes effect: an empty text changes
/// nothing.
pub open spec fn kept_text(column: Option<Seq<char>>) -> Option<Seq<char>> {
    match column {
        Some(text) => if text.len() > 0 {
            Some(text)
        } else {
            None
        },
        None => None,
    }
}

/// The slot of an update as it takes effect: an ordinal that names no slot
/// changes nothing.
pub open spec fn kept_slot(column: Option<i32>) -> Option<i32> {
    match column {
        Some(slot) => if valid_slot(slot as int) {
            Some(slot)
        } else {
            None
        },
        None => None,
    }
}

/// An update as it takes effect.
pub open spec fn effective(changes: UpdateBookingView) -> UpdateBookingView {
    UpdateBookingView {
        reason: kept_text(changes.reason),
        duration: kept_slot(changes.duration),
        status: kept_text(changes.status),
        date: kept_text(changes.date),
    }
}

/// Drops an empty text from an update.
fn keep_text(column: Option<String>) -> (kept: Option<String>)
    ensures
        opt_text(kept) == kept_text(opt_text(column)),
{
    match column {
        Some(text) => if text.as_str().is_empty() {
            None
        } else {
            Some(text)
        },
        None => None,
    }
}

/// Drops from an update what changes nothing: an empty text, and a slot
/// ordinal other than 0, 1 and 2.
pub fn normalize(changes: UpdateBooking) -> (kept: UpdateBooking)
    ensures
        kept@ == effective(changes@),
{
    UpdateBooking {
        reason: keep_text(changes.reason),
        duration: match changes.duration {
            Some(slot) => if slot > -1 && slot < 3 {
                Some(slot)
            } else {
                None
            },
            None => None,
        },
        status: keep_text(changes.status),
        date: keep_text(changes.date),
    }
}

/// What a request to change a booking comes to: the changes to persist, or
/// why there are none.
pub open spec fn spec_patch_bookings(
    id: i32,
    caller: Option<User>,
    bookings: Seq<Booking>,
    changes: UpdateBookingView,
) -> Result<UpdateBookingView, Status> {
    match caller {
        None => Err(Status::Unauthorized),
        Some(user) => if !user.holds_admin() {
            Err(Status::Forbidden)
        } else if booking_by_id(bookings, id) is None {
            Err(Status::NotFound)
        } else {
            Ok(effective(changes))
        },
    }
}

/// Decides on a request to change the booking `id`. Only an admin may, and
/// only a stored booking can be changed. `Ok` holds the changes that the
/// caller of this function persists: those of `changes` that take effect.
/// The changed booking is not held against the other bookings of its room.
pub fn patch_bookings(
    id: i32,
    caller: &Option<User>,
    bookings: &Vec<Booking>,
    changes: UpdateBooking,
) -> (step: Result<UpdateBooking, Status>)
    ensures
        match step {
            Ok(kept) => spec_patch_bookings(id, *caller, bookings@, changes@) == Ok::<
                UpdateBookingView,
                Status,
            >(kept@),
            Err(status) => spec_patch_bookings(id, *caller, bookings@, changes@) == Err::<
                UpdateBookingView,
                Status,
            >(status),
        },
{
    let kept = normalize(changes);
    let user = match caller {
        Some(user) => user,
        None => {
            return Err(Status::Unauthorized);
        },
    };
    if !user.is_admin() {
        return Err(Status::Forbidden);
    }
    if Booking::by_id(bookings, id).is_none() {
        return Err(Status::NotFound);
    }
    Ok(kept)
}

/// Where no two stored bookings overlap and a request for a booking is
/// granted, none overlap once the granted row is stored too, whatever id
/// and creation time the store gives it.
pub proof fn lemma_granted_booking_keeps_rooms_free(
    caller: Option<User>,
    rooms: Seq<Room>,
    bookings: Seq<Booking>,
    post: PostBooking,
    stored: Booking,
)
    requires
        no_double_booking(bookings),
        spec_post_bookings(caller, rooms, bookings, post) matches Ok(row) && stored@ == (
        BookingView { id: stored.id, created_at: opt_text(stored.created_at), ..row }),
    ensures
        no_double_booking(bookings.push(stored)),
{
    lemma_accepted_booking_keeps_rooms_free(bookings, stored);
}

/// An update whose slot names none of the three slots leaves the stored
/// slot as it is; and whatever an update carries, a stored slot that names
/// one still names one afterwards.
pub proof fn lemma_update_keeps_slot_valid(row: BookingView, changes: UpdateBookingView)
    ensures
        changes.duration matches Some(slot) && !valid_slot(slot as int) ==> updated(
            row,
            effective(changes),
        ).duration == row.duration,
        valid_slot(row.duration as int) ==> valid_slot(
            updated(row, effective(changes)).duration as int,
        ),
{
}

/// An update leaves alone the columns for which it carries an empty text
/// or nothing, and never touches the id, the room, the owner or the
/// creation time.
pub proof fn lemma_update_keeps_what_it_omits(row: BookingView, changes: UpdateBookingView)
    ensures
        kept_text(changes.reason) is None ==> updated(row, effective(changes)).reason
            == row.reason,
        kept_text(changes.status) is None ==> updated(row, effective(changes)).status
            == row.status,
        kept_text(changes.date) is None ==> updated(row, effective(changes)).date == row.date,
        updated(row, effective(changes)).id == row.id,
        updated(row, effective(changes)).fk_room_id == row.fk_room_id,
        updated(row, effective(changes)).fk_user_id == row.fk_user_id,
        updated(row, effective(changes)).created_at == row.created_at,
{
}

/// Cancelling is idempotent: once no booking is stored under an id, every
/// known caller's request to cancel it is already satisfied.
pub proof fn lemma_cancel_twice(id: i32, caller: Option<User>, bookings: Seq<Booking>)
    requires
        caller is Some,
        booking_by_id(bookings, id) is None,
    ensures
        spec_delete_bookings(id, caller, bookings) == Ok::<Deletion, Status>(Deletion::Absent),
{
}

/// Where no two stored bookings overlap, none overlap once a booking is
/// cancelled.
pub proof fn lemma_cancelled_booking_keeps_rooms_free(bookings: Seq<Booking>, id: i32)
    requires
        no_double_booking(bookings),
    ensures
        no_double_booking(bookings_without(bookings, id)),
{
    lemma_kept_bookings_keep_rooms_free(bookings, |b: Booking| b.id != Some(id));
}

/// Once a booking is cancelled, none is stored under its id.
pub proof fn lemma_cancelled_booking_is_gone(bookings: Seq<Booking>, id: i32)
    ensures
        booking_by_id(bookings_without(bookings, id), id) is None,
{
    let left = bookings_without(bookings, id);
    assert forall|j: int| 0 <= j < left.len() implies !(|b: Booking| b.id == Some(id))(
        #[trigger] left[j],
    ) by {
        bookings.lemma_filter_pred(|b: Booking| b.id != Some(id), j);
    }
    crate::rows::lemma_first_where_none(left, |b: Booking| b.id == Some(id));
}

} // verus!
