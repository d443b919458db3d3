//! Who may do what. Each predicate is asked once the caller's identity is
//! known.

use vstd::prelude::*;
use crate::models::booking::Booking;
use crate::models::user::User;

verus! {

/// Whether the user owns the booking.
pub open spec fn owns(user: &User, booking: &Booking) -> bool {
    booking.fk_user_id == user.spec_owner_id()
}

/// Whether the user may change or cancel the booking: an admin may, and so
/// may its owner.
pub open spec fn may_mutate_booking(user: &User, booking: &Booking) -> bool {
    user.holds_admin() || owns(user, booking)
}

/// Every user may list bookings; which ones is a matter of scope.
pub fn can_view_bookings(user: &User) -> (allowed: bool)
    ensures
        allowed,
{
    true
}

/// Every user may ask for a booking.
pub fn can_create_booking(user: &User) -> (allowed: bool)
    ensures
        allowed,
{
    true
}

/// An admin may change or cancel any booking, another user only their own.
pub fn can_mutate_booking(user: &User, booking: &Booking) -> (allowed: bool)
    ensures
        allowed == may_mutate_booking(user, booking),
{
    user.is_admin() || booking.fk_user_id == user.owner_id()
}

/// Only an admin may list, add, change or remove users.
pub fn can_manage_users(user: &User) -> (allowed: bool)
    ensures
        allowed == user.holds_admin(),
{
    user.is_admin()
}

/// Only an admin may add or remove rooms.
pub fn can_manage_rooms(user: &User) -> (allowed: bool)
    ensures
        allowed == user.holds_admin(),
{
    user.is_admin()
}

/// A user who is no admin may change or cancel exactly the bookings they
/// own.
pub proof fn lemma_others_bookings_are_out_of_reach(user: &User, booking: &Booking)
    requires
        !user.holds_admin(),
    ensures
        may_mutate_booking(user, booking) <==> booking.fk_user_id == user.spec_owner_id(),
{
}

} // verus!
