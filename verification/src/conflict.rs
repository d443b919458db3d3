//! The rule that decides whether two reservations of one room on one day can
//! stand side by side.

use vstd::prelude::*;
use crate::models::booking::Booking;
use crate::rows::{first_where, lemma_first_where, lemma_first_where_is, lemma_first_where_none};

verus! {

/// The part of a day that a booking reserves.
#[derive(Clone, Copy, Debug, PartialEq, Eq, Structural)]
pub enum TimeSlot {
    Morning,
    Afternoon,
    WholeDay,
}

/// The ordinal that stands for the whole day.
pub const WHOLE_DAY: i32 = 2;

impl TimeSlot {
    /// The ordinal under which the slot is stored: 0, 1 or 2.
    pub open spec fn spec_ordinal(self) -> int {
        match self {
            TimeSlot::Morning => 0,
            TimeSlot::Afternoon => 1,
            TimeSlot::WholeDay => 2,
        }
    }

    /// The slot that an ordinal stands for, if it stands for one.
    pub open spec fn spec_from_ordinal(ordinal: int) -> Option<TimeSlot> {
        if ordinal == 0 {
            Some(TimeSlot::Morning)
        } else if ordinal == 1 {
            Some(TimeSlot::Afternoon)
        } else if ordinal == 2 {
            Some(TimeSlot::WholeDay)
        } else {
            None
        }
    }

    /// Two slots clash unless one is the morning and the other the afternoon.
    pub open spec fn spec_clashes(self, other: TimeSlot) -> bool {
        self == other || self == TimeSlot::WholeDay || other == TimeSlot::WholeDay
    }

    pub fn ordinal(self) -> (n: i32)
        ensures
            n == self.spec_ordinal(),
    {
        match self {
            TimeSlot::Morning => 0,
            TimeSlot::Afternoon => 1,
            TimeSlot::WholeDay => 2,
        }
    }

    pub fn from_ordinal(ordinal: i32) -> (slot: Option<TimeSlot>)
        ensures
            slot == TimeSlot::spec_from_ordinal(ordinal as int),
    {
        if ordinal == 0 {
            Some(TimeSlot::Morning)
        } else if ordinal == 1 {
            Some(TimeSlot::Afternoon)
        } else if ordinal == 2 {
            Some(TimeSlot::WholeDay)
        } else {
            None
        }
    }

    pub fn clashes(self, other: TimeSlot) -> (clash: bool)
        ensures
            clash == self.spec_clashes(other),
    {
        self == other || self == TimeSlot::WholeDay || other == TimeSlot::WholeDay
    }
}

/// Whether `ordinal` names a slot.
pub open spec fn valid_slot(ordinal: int) -> bool {
    0 <= ordinal <= 2
}

/// The clash rule on stored ordinals: equal ordinals clash, and the whole
/// day clashes with everything.
pub open spec fn slots_conflict(existing: int, requested: int) -> bool {
    existing == requested || existing == WHOLE_DAY || requested == WHOLE_DAY
}

/// Decides whether a stored slot and a requested one clash.
pub fn conflicts(existing: i32, requested: i32) -> (clash: bool)
    ensures
        clash == slots_conflict(existing as int, requested as int),
{
    existing == requested || existing == WHOLE_DAY || requested == WHOLE_DAY
}

/// On ordinals that name slots, the rule on ordinals is the rule on slots.
pub proof fn lemma_conflict_agrees_with_slots(existing: TimeSlot, requested: TimeSlot)
    ensures
        slots_conflict(existing.spec_ordinal(), requested.spec_ordinal())
            == existing.spec_clashes(requested),
{
}

/// The rule does not depend on which booking came first.
pub proof fn lemma_conflict_symmetric(a: int, b: int)
    ensures
        slots_conflict(a, b) == slots_conflict(b, a),
{
}

/// Two slots stand side by side exactly when one is the morning and the
/// other the afternoon.
pub proof fn lemma_only_half_days_coexist(a: TimeSlot, b: TimeSlot)
    ensures
        !a.spec_clashes(b) <==> (a == TimeSlot::Morning && b == TimeSlot::Afternoon) || (a
            == TimeSlot::Afternoon && b == TimeSlot::Morning),
{
}

/// One half of a day. A booking claims the halves that its slot spans, and
/// a store can keep bookings apart by letting each half of a room's day be
/// claimed once.
#[derive(Clone, Copy, Debug, PartialEq, Eq, Structural)]
pub enum HalfDay {
    Morning,
    Afternoon,
}

impl TimeSlot {
    /// Whether the slot spans the half: the whole day spans both.
    pub open spec fn spec_claims(self, half: HalfDay) -> bool {
        match self {
            TimeSlot::Morning => half == HalfDay::Morning,
            TimeSlot::Afternoon => half == HalfDay::Afternoon,
            TimeSlot::WholeDay => true,
        }
    }

    pub fn claims(self, half: HalfDay) -> (claimed: bool)
        ensures
            claimed == self.spec_claims(half),
    {
        match self {
            TimeSlot::Morning => half == HalfDay::Morning,
            TimeSlot::Afternoon => half == HalfDay::Afternoon,
            TimeSlot::WholeDay => true,
        }
    }
}

/// Two slots clash exactly when they claim a half of the day in common.
pub proof fn lemma_clash_is_a_shared_half(a: TimeSlot, b: TimeSlot)
    ensures
        a.spec_clashes(b) <==> exists|half: HalfDay|
            #[trigger] a.spec_claims(half) && b.spec_claims(half),
{
    if a.spec_clashes(b) {
        let half = if a == TimeSlot::Afternoon || b == TimeSlot::Afternoon {
            HalfDay::Afternoon
        } else {
            HalfDay::Morning
        };
        assert(a.spec_claims(half) && b.spec_claims(half));
    }
}

/// What the engine answers to a request.
#[derive(Clone, Copy, Debug, PartialEq, Eq, Structural)]
pub enum Verdict {
    Accept,
    Reject,
}

/// Whether a stored booking stands in the way of a request for `slot` in
/// the room `room_id` on `date`: same room, same date, clashing slots.
pub open spec fn blocks(existing: Booking, room_id: i32, date: Seq<char>, slot: i32) -> bool {
    existing.fk_room_id == room_id && existing.date@ == date && slots_conflict(
        existing.duration as int,
        slot as int,
    )
}

/// The place of the first stored booking that stands in the way of the
/// request, if one does.
pub open spec fn first_conflict(bookings: Seq<Booking>, room_id: i32, date: Seq<char>, slot: i32)
    -> Option<int> {
    first_where(bookings, |b: Booking| blocks(b, room_id, date, slot))
}

/// Whether two bookings reserve the same room on the same date with
/// clashing slots.
pub open spec fn overlap(a: Booking, b: Booking) -> bool {
    blocks(a, b.fk_room_id, b.date@, b.duration)
}

/// No two of the bookings overlap.
pub open spec fn no_double_booking(bookings: Seq<Booking>) -> bool {
    forall|i: int, j: int|
        0 <= i < j < bookings.len() ==> !overlap(#[trigger] bookings[i], #[trigger] bookings[j])
}

/// Finds the first of `bookings` that stands in the way of a request for
/// `slot` in the room `room_id` on `date`.
pub fn find_conflict(bookings: &Vec<Booking>, room_id: i32, date: &str, slot: i32) -> (at: Option<
    usize,
>)
    ensures
        match at {
            Some(i) => first_conflict(bookings@, room_id, date@, slot) == Some(i as int),
            None => first_conflict(bookings@, room_id, date@, slot) is None,
        },
{
    let ghost wanted = |b: Booking| blocks(b, room_id, date@, slot);
    let probe = date.to_owned();
    let mut i: usize = 0;
    while i < bookings.len()
        invariant
            i <= bookings.len(),
            probe@ == date@,
            wanted == (|b: Booking| blocks(b, room_id, date@, slot)),
            forall|j: int| 0 <= j < i ==> !wanted(#[trigger] bookings@[j]),
        decreases bookings.len() - i,
    {
        if bookings[i].fk_room_id == room_id && bookings[i].date == probe && conflicts(
            bookings[i].duration,
            slot,
        ) {
            proof {
                lemma_first_where_is(bookings@, wanted, i as int);
            }
            return Some(i);
        }
        i += 1;
    }
    proof {
        lemma_first_where_none(bookings@, wanted);
    }
    None
}

/// Decides on a request for `slot` in the room `room_id` on `date`: it is
/// rejected exactly when one of `bookings` stands in its way.
pub fn check(bookings: &Vec<Booking>, room_id: i32, date: &str, slot: i32) -> (verdict: Verdict)
    ensures
        verdict is Reject <==> exists|i: int|
            0 <= i < bookings.len() && blocks(#[trigger] bookings[i], room_id, date@, slot),
        verdict is Accept <==> first_conflict(bookings@, room_id, date@, slot) is None,
{
    proof {
        lemma_first_where(bookings@, |b: Booking| blocks(b, room_id, date@, slot));
    }
    match find_conflict(bookings, room_id, date, slot) {
        Some(_) => Verdict::Reject,
        None => Verdict::Accept,
    }
}

/// Adding a booking that the engine accepts to bookings of which no two
/// overlap leaves no two overlapping.
pub proof fn lemma_accepted_booking_keeps_rooms_free(bookings: Seq<Booking>, accepted: Booking)
    requires
        no_double_booking(bookings),
        first_conflict(bookings, accepted.fk_room_id, accepted.date@, accepted.duration) is None,
    ensures
        no_double_booking(bookings.push(accepted)),
{
    lemma_first_where(
        bookings,
        |b: Booking| blocks(b, accepted.fk_room_id, accepted.date@, accepted.duration),
    );
    let grown = bookings.push(accepted);
    assert forall|i: int, j: int| 0 <= i < j < grown.len() implies !overlap(
        #[trigger] grown[i],
        #[trigger] grown[j],
    ) by {
        if j < bookings.len() {
            assert(!overlap(bookings[i], bookings[j]));
        } else {
            assert(!blocks(bookings[i], accepted.fk_room_id, accepted.date@, accepted.duration));
        }
    }
}

/// Where no two bookings overlap, the bookings of one room on one date are
/// one whole day, or at most one morning and one afternoon: any two of them
/// hold different half-day slots.
pub proof fn lemma_same_room_and_date_share_the_day(bookings: Seq<Booking>, i: int, j: int)
    requires
        no_double_booking(bookings),
        0 <= i < j < bookings.len(),
        bookings[i].fk_room_id == bookings[j].fk_room_id,
        bookings[i].date@ == bookings[j].date@,
    ensures
        bookings[i].duration != bookings[j].duration,
        bookings[i].duration != WHOLE_DAY,
        bookings[j].duration != WHOLE_DAY,
{
    assert(!overlap(bookings[i], bookings[j]));
}

/// Keeping some of the bookings, in their order, of which no two overlap
/// leaves no two overlapping: cancelling never makes a room double-booked.
pub proof fn lemma_kept_bookings_keep_rooms_free(
    bookings: Seq<Booking>,
    kept: spec_fn(Booking) -> bool,
)
    requires
        no_double_booking(bookings),
    ensures
        no_double_booking(bookings.filter(kept)),
    decreases bookings.len(),
{
    reveal(Seq::filter);
    if bookings.len() > 0 {
        let before = bookings.drop_last();
        assert forall|i: int, j: int| 0 <= i < j < before.len() implies !overlap(
            #[trigger] before[i],
            #[trigger] before[j],
        ) by {
            assert(!overlap(bookings[i], bookings[j]));
        }
        lemma_kept_bookings_keep_rooms_free(before, kept);
        let fewer = bookings.filter(kept);
        if kept(bookings.last()) {
            assert forall|i: int, j: int| 0 <= i < j < fewer.len() implies !overlap(
                #[trigger] fewer[i],
                #[trigger] fewer[j],
            ) by {
                let shorter = before.filter(kept);
                if j < shorter.len() {
                    assert(!overlap(shorter[i], shorter[j]));
                } else {
                    before.lemma_filter_contains_rev(kept, shorter[i]);
                    let k = choose|k: int| 0 <= k < before.len() && before[k] == shorter[i];
                    assert(!overlap(bookings[k], bookings.last()));
                }
            }
        }
    }
}

} // verus!
