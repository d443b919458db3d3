use room_booking::models::booking::{Booking, SerializeBooking, UpdateBooking};
use room_booking::models::room::Room;
use room_booking::models::user::User;
use room_booking::routes::bookings::{
    booking_response, delete_bookings, get_bookings, normalize, patch_bookings, post_bookings,
    PostBooking,
};
use room_booking::routes::{deleted, Deletion};
use room_booking::status::Status;

fn user(id: i32, admin: bool) -> User {
    User {
        id: Some(id),
        is_admin: Some(admin),
        first_name: format!("First{id}"),
        last_name: format!("Last{id}"),
        email: format!("user{id}@example.org"),
        password: "hash".to_string(),
        created_at: Some("2024-07-01 10:00:00".to_string()),
    }
}

fn room(id: i32, name: &str) -> Room {
    Room { id: Some(id), name: name.to_string() }
}

fn stored(id: i32, slot: i32, date: &str, room: i32, user: i32) -> Booking {
    Booking {
        id: Some(id),
        reason: format!("Reason {id}"),
        duration: slot,
        status: "Pending".to_string(),
        date: date.to_string(),
        fk_room_id: room,
        fk_user_id: user,
        created_at: Some("2024-07-01 10:00:00".to_string()),
    }
}

fn request(slot: i32, date: &str, room: i32) -> PostBooking {
    PostBooking {
        reason: "Workshop".to_string(),
        duration: slot,
        date: date.to_string(),
        room_id: room,
    }
}

fn no_changes() -> UpdateBooking {
    UpdateBooking { reason: None, duration: None, status: None, date: None }
}

/// Plays the store's part: gives the row an id and a creation time.
fn persist(bookings: &mut Vec<Booking>, row: Booking) -> Booking {
    let id = bookings.iter().filter_map(|b| b.id).max().unwrap_or(0) + 1;
    let saved = Booking {
        id: Some(id),
        created_at: Some("2024-07-02 09:00:00".to_string()),
        ..row
    };
    bookings.push(saved.clone());
    saved
}

#[test]
fn afternoon_fits_beside_morning_but_morning_and_whole_day_do_not() {
    let rooms = vec![room(1, "R1")];
    let caller = Some(user(1, false));
    let bookings = vec![stored(1, 0, "2024-07-11", 1, 1)];
    let afternoon = post_bookings(&caller, &rooms, &bookings, &request(1, "2024-07-11", 1));
    assert_eq!(
        afternoon,
        Ok(Booking {
            id: None,
            reason: "Workshop".to_string(),
            duration: 1,
            status: "Pending".to_string(),
            date: "2024-07-11".to_string(),
            fk_room_id: 1,
            fk_user_id: 1,
            created_at: None,
        })
    );
    let morning = post_bookings(&caller, &rooms, &bookings, &request(0, "2024-07-11", 1));
    assert_eq!(morning, Err(Status::Conflict));
    let whole_day = post_bookings(&caller, &rooms, &bookings, &request(2, "2024-07-11", 1));
    assert_eq!(whole_day, Err(Status::Conflict));
}

#[test]
fn booking_needs_a_known_caller_and_a_stored_room() {
    let rooms = vec![room(1, "R1")];
    let bookings = vec![stored(1, 2, "2024-07-11", 1, 1)];
    let anonymous = post_bookings(&None, &rooms, &bookings, &request(0, "2024-07-11", 7));
    assert_eq!(anonymous, Err(Status::Unauthorized));
    let caller = Some(user(1, false));
    let missing = post_bookings(&caller, &rooms, &bookings, &request(2, "2024-07-11", 7));
    assert_eq!(missing, Err(Status::NotFound));
    let taken = post_bookings(&caller, &rooms, &bookings, &request(0, "2024-07-11", 1));
    assert_eq!(taken, Err(Status::Conflict));
}

#[test]
fn booking_in_another_room_or_on_another_date_is_granted() {
    let rooms = vec![room(1, "R1"), room(2, "R2")];
    let caller = Some(user(3, false));
    let bookings = vec![stored(1, 2, "2024-07-11", 1, 1)];
    let other_room = post_bookings(&caller, &rooms, &bookings, &request(2, "2024-07-11", 2));
    assert_eq!(other_room.unwrap().fk_room_id, 2);
    let other_date = post_bookings(&caller, &rooms, &bookings, &request(2, "2024-07-12", 1));
    let row = other_date.unwrap();
    assert_eq!(row.fk_user_id, 3);
    assert_eq!(row.status, "Pending");
    assert_eq!(row.id, None);
}

#[test]
fn caller_without_id_owns_bookings_under_zero() {
    let rooms = vec![room(1, "R1")];
    let caller = Some(User { id: None, ..user(1, false) });
    let row = post_bookings(&caller, &rooms, &vec![], &request(0, "2024-07-11", 1)).unwrap();
    assert_eq!(row.fk_user_id, 0);
}

#[test]
fn granted_bookings_never_overlap() {
    let rooms = vec![room(1, "R1"), room(2, "R2")];
    let caller = Some(user(1, false));
    let mut bookings: Vec<Booking> = Vec::new();
    let mut granted = 0;
    for date in ["2024-07-11", "2024-07-12"] {
        for room_id in [1, 2] {
            for slot in [1, 2, 0, 1, 0, 2] {
                let step = post_bookings(&caller, &rooms, &bookings, &request(slot, date, room_id));
                if let Ok(row) = step {
                    persist(&mut bookings, row);
                    granted += 1;
                } else {
                    assert_eq!(step, Err(Status::Conflict));
                }
            }
        }
    }
    assert_eq!(granted, 8);
    for a in &bookings {
        for b in &bookings {
            if a.id != b.id && a.fk_room_id == b.fk_room_id && a.date == b.date {
                assert!(a.duration != b.duration && a.duration != 2 && b.duration != 2);
            }
        }
    }
}

#[test]
fn only_owner_and_admin_cancel_and_cancelling_twice_succeeds() {
    let rooms = vec![room(1, "R1")];
    let a = Some(user(1, false));
    let c = Some(user(2, false));
    let admin = Some(user(3, true));
    let mut bookings: Vec<Booking> = Vec::new();
    let row = post_bookings(&a, &rooms, &bookings, &request(0, "2024-07-11", 1)).unwrap();
    let b = persist(&mut bookings, row).id.unwrap();

    assert_eq!(delete_bookings(b, &c, &bookings), Err(Status::Forbidden));
    assert_eq!(bookings.len(), 1);

    let step = delete_bookings(b, &admin, &bookings);
    assert_eq!(step, Ok(Deletion::Delete(b)));
    let done = Booking::delete(&mut bookings, b);
    assert!(bookings.is_empty());
    assert_eq!(deleted(Some(done)), Ok(Status::NoContent));

    let again = delete_bookings(b, &admin, &bookings);
    assert_eq!(again, Ok(Deletion::Absent));
    assert_eq!(deleted(None), Ok(Status::NoContent));
    assert_eq!(delete_bookings(b, &c, &bookings), Ok(Deletion::Absent));
}

#[test]
fn owner_cancels_their_own_booking() {
    let bookings = vec![stored(5, 0, "2024-07-11", 1, 1), stored(6, 1, "2024-07-11", 1, 2)];
    assert_eq!(delete_bookings(5, &Some(user(1, false)), &bookings), Ok(Deletion::Delete(5)));
    assert_eq!(delete_bookings(6, &Some(user(1, false)), &bookings), Err(Status::Forbidden));
    assert_eq!(delete_bookings(6, &Some(user(2, false)), &bookings), Ok(Deletion::Delete(6)));
    assert_eq!(delete_bookings(5, &None, &bookings), Err(Status::Unauthorized));
    assert_eq!(delete_bookings(9, &None, &bookings), Err(Status::Unauthorized));
}

#[test]
fn failed_delete_is_an_internal_error() {
    assert_eq!(deleted(Some(false)), Err(Status::InternalServerError));
    assert_eq!(deleted(Some(true)), Ok(Status::NoContent));
    assert_eq!(deleted(None), Ok(Status::NoContent));
}

#[test]
fn slot_out_of_range_leaves_the_stored_slot() {
    let admin = Some(user(3, true));
    let bookings = vec![stored(1, 1, "2024-07-11", 1, 1)];
    let changes = UpdateBooking { duration: Some(5), ..no_changes() };
    let kept = patch_bookings(1, &admin, &bookings, changes).unwrap();
    assert_eq!(kept, no_changes());
    let after = bookings[0].update(&kept);
    assert_eq!(after.duration, 1);
    assert_eq!(after, bookings[0]);
}

#[test]
fn update_overwrites_what_is_present_and_in_range() {
    let admin = Some(user(3, true));
    let bookings = vec![stored(1, 1, "2024-07-11", 1, 1)];
    let changes = UpdateBooking {
        reason: Some("Moved".to_string()),
        duration: Some(2),
        status: Some("Approved".to_string()),
        date: Some("2024-07-15".to_string()),
    };
    let kept = patch_bookings(1, &admin, &bookings, changes).unwrap();
    let after = bookings[0].update(&kept);
    assert_eq!(
        after,
        Booking {
            id: Some(1),
            reason: "Moved".to_string(),
            duration: 2,
            status: "Approved".to_string(),
            date: "2024-07-15".to_string(),
            fk_room_id: 1,
            fk_user_id: 1,
            created_at: Some("2024-07-01 10:00:00".to_string()),
        }
    );
}

#[test]
fn update_drops_empty_texts_and_slots_that_name_none() {
    for slot in [-1, 3, 5, i32::MIN, i32::MAX] {
        let kept = normalize(UpdateBooking { duration: Some(slot), ..no_changes() });
        assert_eq!(kept.duration, None);
    }
    for slot in [0, 1, 2] {
        let kept = normalize(UpdateBooking { duration: Some(slot), ..no_changes() });
        assert_eq!(kept.duration, Some(slot));
    }
    let kept = normalize(UpdateBooking {
        reason: Some(String::new()),
        duration: None,
        status: Some("Approved".to_string()),
        date: Some(String::new()),
    });
    assert_eq!(
        kept,
        UpdateBooking { status: Some("Approved".to_string()), ..no_changes() }
    );
}

#[test]
fn only_admins_update_and_only_stored_bookings() {
    let bookings = vec![stored(1, 1, "2024-07-11", 1, 1)];
    let status = UpdateBooking { status: Some("Approved".to_string()), ..no_changes() };
    assert_eq!(patch_bookings(1, &None, &bookings, no_changes()), Err(Status::Unauthorized));
    let owner = Some(user(1, false));
    assert_eq!(patch_bookings(1, &owner, &bookings, status), Err(Status::Forbidden));
    let admin = Some(user(3, true));
    assert_eq!(patch_bookings(2, &admin, &bookings, no_changes()), Err(Status::NotFound));
    let unflagged = Some(User { is_admin: None, ..user(4, false) });
    assert_eq!(patch_bookings(1, &unflagged, &bookings, no_changes()), Err(Status::Forbidden));
}

#[test]
fn update_does_not_ask_the_conflict_engine() {
    let admin = Some(user(3, true));
    let bookings = vec![stored(1, 0, "2024-07-11", 1, 1), stored(2, 1, "2024-07-11", 1, 1)];
    let changes = UpdateBooking { duration: Some(2), ..no_changes() };
    let kept = patch_bookings(2, &admin, &bookings, changes).unwrap();
    assert_eq!(bookings[1].update(&kept).duration, 2);
}

#[test]
fn status_alone_can_be_set() {
    let booking = stored(1, 0, "2024-07-11", 1, 1);
    let approved = booking.update_status("Approved");
    assert_eq!(approved, Booking { status: "Approved".to_string(), ..stored(1, 0, "2024-07-11", 1, 1) });
}

#[test]
fn admins_see_all_bookings_and_others_their_own() {
    let users = vec![user(1, false), user(2, false), user(3, true)];
    let rooms = vec![room(1, "R1"), room(2, "R2")];
    let bookings = vec![
        stored(1, 0, "2024-07-11", 1, 1),
        stored(2, 1, "2024-07-11", 1, 2),
        stored(3, 2, "2024-07-12", 2, 1),
    ];
    let all = get_bookings(&Some(user(3, true)), &bookings, &rooms, &users).unwrap();
    assert_eq!(all.iter().map(|b| b.id).collect::<Vec<_>>(), vec![Some(1), Some(2), Some(3)]);
    let own = get_bookings(&Some(user(1, false)), &bookings, &rooms, &users).unwrap();
    assert_eq!(own.iter().map(|b| b.id).collect::<Vec<_>>(), vec![Some(1), Some(3)]);
    assert_eq!(own[1].room, room(2, "R2"));
    assert_eq!(own[1].user, user(1, false));
    assert_eq!(own[1].date, "2024-07-12");
    let none = get_bookings(&Some(user(9, false)), &bookings, &rooms, &users).unwrap();
    assert!(none.is_empty());
}

#[test]
fn listing_needs_a_known_caller_with_a_role() {
    let bookings = vec![stored(1, 0, "2024-07-11", 1, 1)];
    let rooms = vec![room(1, "R1")];
    let users = vec![user(1, false)];
    assert_eq!(get_bookings(&None, &bookings, &rooms, &users), Err(Status::Unauthorized));
    let unflagged = Some(User { is_admin: None, ..user(1, false) });
    assert_eq!(
        get_bookings(&unflagged, &bookings, &rooms, &users),
        Err(Status::InternalServerError)
    );
}

#[test]
fn listing_leaves_out_bookings_whose_room_or_user_is_gone() {
    let users = vec![user(1, false)];
    let rooms = vec![room(1, "R1")];
    let bookings = vec![
        stored(1, 0, "2024-07-11", 1, 1),
        stored(2, 1, "2024-07-11", 2, 1),
        stored(3, 2, "2024-07-12", 1, 2),
        stored(4, 2, "2024-07-13", 1, 1),
    ];
    let all = get_bookings(&Some(user(3, true)), &bookings, &rooms, &users).unwrap();
    assert_eq!(all.iter().map(|b| b.id).collect::<Vec<_>>(), vec![Some(1), Some(4)]);
}

#[test]
fn stored_booking_is_sent_out_with_room_and_user() {
    let users = vec![user(1, false)];
    let rooms = vec![room(1, "R1")];
    let answer = booking_response(Some(stored(1, 0, "2024-07-11", 1, 1)), &rooms, &users);
    assert_eq!(
        answer,
        Ok(SerializeBooking {
            id: Some(1),
            reason: "Reason 1".to_string(),
            duration: 0,
            status: "Pending".to_string(),
            date: "2024-07-11".to_string(),
            room: room(1, "R1"),
            user: user(1, false),
            created_at: Some("2024-07-01 10:00:00".to_string()),
        })
    );
    assert_eq!(booking_response(None, &rooms, &users), Err(Status::InternalServerError));
    let roomless = booking_response(Some(stored(1, 0, "2024-07-11", 2, 1)), &rooms, &users);
    assert_eq!(roomless, Err(Status::InternalServerError));
    let ownerless = SerializeBooking::from_booking(stored(1, 0, "2024-07-11", 1, 2), &rooms, &users);
    assert_eq!(ownerless, None);
}

#[test]
fn bookings_are_selected_by_id_user_room_and_date() {
    let bookings = vec![
        stored(1, 0, "2024-07-11", 1, 1),
        stored(2, 1, "2024-07-11", 1, 2),
        stored(3, 2, "2024-07-12", 2, 1),
    ];
    assert_eq!(Booking::by_id(&bookings, 2), Some(stored(2, 1, "2024-07-11", 1, 2)));
    assert_eq!(Booking::by_id(&bookings, 4), None);
    assert_eq!(Booking::all(&bookings), bookings);
    let ids = |rows: Vec<Booking>| rows.iter().map(|b| b.id.unwrap()).collect::<Vec<_>>();
    assert_eq!(ids(Booking::by_user_id(&bookings, 1)), vec![1, 3]);
    assert_eq!(ids(Booking::by_room_id(&bookings, 1)), vec![1, 2]);
    assert_eq!(ids(Booking::by_date(&bookings, "2024-07-11")), vec![1, 2]);
    assert_eq!(ids(Booking::by_date(&bookings, "2024-07-13")), Vec::<i32>::new());
}

#[test]
fn new_booking_is_pending_and_unsaved() {
    let row = Booking::create("Reason 1", 0, "2024-07-11", 1, 1);
    assert_eq!(
        row,
        Booking {
            id: None,
            reason: "Reason 1".to_string(),
            duration: 0,
            status: "Pending".to_string(),
            date: "2024-07-11".to_string(),
            fk_room_id: 1,
            fk_user_id: 1,
            created_at: None,
        }
    );
}

#[test]
fn deleting_takes_away_the_row_with_the_id_and_no_other() {
    let mut bookings = vec![
        stored(1, 0, "2024-07-11", 1, 1),
        stored(2, 1, "2024-07-11", 1, 2),
        stored(3, 2, "2024-07-12", 2, 1),
    ];
    assert!(Booking::delete(&mut bookings, 2));
    assert_eq!(bookings, vec![stored(1, 0, "2024-07-11", 1, 1), stored(3, 2, "2024-07-12", 2, 1)]);
    assert!(Booking::delete(&mut bookings, 2));
    assert_eq!(bookings.len(), 2);
    assert_eq!(Booking::by_id(&bookings, 2), None);
    assert!(Booking::delete(&mut bookings, 1));
    assert!(Booking::delete(&mut bookings, 3));
    assert!(bookings.is_empty());
}

#[test]
fn cancelling_frees_the_slot_for_the_next_request() {
    let rooms = vec![room(1, "R1")];
    let caller = Some(user(1, false));
    let mut bookings = vec![stored(1, 2, "2024-07-11", 1, 1)];
    let blocked = post_bookings(&caller, &rooms, &bookings, &request(0, "2024-07-11", 1));
    assert_eq!(blocked, Err(Status::Conflict));
    assert!(Booking::delete(&mut bookings, 1));
    let free = post_bookings(&caller, &rooms, &bookings, &request(0, "2024-07-11", 1));
    assert!(free.is_ok());
}
