use room_booking::auth::{decode_token, decode_token_at, hash_password, verify_password};
use room_booking::models::user::User;
use room_booking::routes::login::{
    get_login, post_login, post_login_at, post_register, registered, session_at, Login,
    LoginResponse, Register,
};
use room_booking::status::Status;

const SECRET: &str = "fixture-signing-key";
const NOW: i64 = 1_720_000_000;

fn registration(email: &str, password: &str) -> Register {
    Register {
        first_name: "Ada".to_string(),
        last_name: "Lovelace".to_string(),
        email: email.to_string(),
        password: password.to_string(),
    }
}

fn login(email: &str, password: &str) -> Login {
    Login { email: email.to_string(), password: password.to_string() }
}

/// Plays the store's part: gives the row an id and a creation time.
fn persist(users: &mut Vec<User>, row: User) -> User {
    let id = users.len() as i32 + 1;
    let saved = User {
        id: Some(id),
        created_at: Some("2024-07-02 09:00:00".to_string()),
        ..row
    };
    users.push(saved.clone());
    saved
}

#[test]
fn first_registration_is_admin_and_second_is_not() {
    let mut users: Vec<User> = Vec::new();
    let first = post_register(&registration("ada@example.org", "pw-one"), &users).unwrap();
    assert_eq!(first.is_admin, Some(true));
    assert_eq!(first.id, None);
    assert_eq!(first.created_at, None);
    persist(&mut users, first);
    let second = post_register(&registration("bob@example.org", "pw-two"), &users).unwrap();
    assert_eq!(second.is_admin, Some(false));
    persist(&mut users, second);
    let third = post_register(&registration("eve@example.org", "pw-three"), &users).unwrap();
    assert_eq!(third.is_admin, Some(false));
}

#[test]
fn registration_stores_a_hash_and_never_the_password() {
    let row = post_register(&registration("ada@example.org", "s3cret"), &vec![]).unwrap();
    assert_ne!(row.password, "s3cret");
    assert!(verify_password("s3cret", &row.password));
    assert!(!verify_password("s3cret!", &row.password));
    assert_eq!(row.first_name, "Ada");
    assert_eq!(row.last_name, "Lovelace");
    assert_eq!(row.email, "ada@example.org");
}

#[test]
fn registration_with_a_taken_email_is_a_conflict() {
    let mut users: Vec<User> = Vec::new();
    let row = User::create(true, "Ada", "Lovelace", "ada@example.org", "hash");
    persist(&mut users, row);
    let again = post_register(&registration("ada@example.org", "other"), &users);
    assert_eq!(again, Err(Status::Conflict));
}

#[test]
fn registration_answers_with_a_session_for_the_stored_user() {
    let mut users: Vec<User> = Vec::new();
    let row = User::create(true, "Ada", "Lovelace", "ada@example.org", "hash");
    let saved = persist(&mut users, row);
    let answer = registered(Some(saved.clone()), SECRET).unwrap();
    assert_eq!(answer.user, saved);
    assert_eq!(decode_token(&answer.token, SECRET), Some(1));
    assert_eq!(registered(None, SECRET), Err(Status::InternalServerError));
    let unsaved = User::create(true, "Ada", "Lovelace", "ada@example.org", "hash");
    assert_eq!(registered(Some(unsaved), SECRET), Err(Status::InternalServerError));
}

#[test]
fn login_with_the_right_password_opens_a_session() {
    let mut users: Vec<User> = Vec::new();
    let hash = hash_password("pw-one").unwrap();
    let row = User::create(false, "Ada", "Lovelace", "ada@example.org", &hash);
    let saved = persist(&mut users, row);
    let answer = post_login_at(&login("ada@example.org", "pw-one"), &users, SECRET, NOW).unwrap();
    assert_eq!(answer.user, saved);
    assert_eq!(decode_token_at(&answer.token, SECRET, NOW), Some(1));
    assert_eq!(decode_token_at(&answer.token, SECRET, NOW + 86_401), None);
    let now = post_login(&login("ada@example.org", "pw-one"), &users, SECRET).unwrap();
    assert_eq!(decode_token(&now.token, SECRET), Some(1));
}

#[test]
fn login_with_a_wrong_password_or_unknown_email_is_unauthorized() {
    let mut users: Vec<User> = Vec::new();
    let hash = hash_password("pw-one").unwrap();
    let row = User::create(false, "Ada", "Lovelace", "ada@example.org", &hash);
    persist(&mut users, row);
    let wrong = post_login_at(&login("ada@example.org", "pw-two"), &users, SECRET, NOW);
    assert_eq!(wrong, Err(Status::Unauthorized));
    let unknown = post_login_at(&login("bob@example.org", "pw-one"), &users, SECRET, NOW);
    assert_eq!(unknown, Err(Status::Unauthorized));
    let nobody = post_login(&login("ada@example.org", "pw-one"), &vec![], SECRET);
    assert_eq!(nobody, Err(Status::Unauthorized));
}

#[test]
fn login_against_a_malformed_hash_is_unauthorized() {
    let mut users: Vec<User> = Vec::new();
    let row = User::create(false, "Ada", "Lovelace", "ada@example.org", "pw-one");
    persist(&mut users, row);
    let answer = post_login(&login("ada@example.org", "pw-one"), &users, SECRET);
    assert_eq!(answer, Err(Status::Unauthorized));
}

#[test]
fn session_needs_a_stored_id_and_a_writable_expiry() {
    let unsaved = User::create(false, "Ada", "Lovelace", "ada@example.org", "hash");
    assert_eq!(session_at(unsaved, SECRET, NOW), Err(Status::InternalServerError));
    let mut users: Vec<User> = Vec::new();
    let row = User::create(false, "Ada", "Lovelace", "ada@example.org", "hash");
    let saved = persist(&mut users, row);
    assert_eq!(session_at(saved.clone(), SECRET, i64::MAX), Err(Status::InternalServerError));
    let answer: LoginResponse = session_at(saved.clone(), SECRET, NOW).unwrap();
    assert_eq!(answer.user, saved);
}

#[test]
fn known_caller_is_told_who_they_are() {
    let row = User::create(false, "Ada", "Lovelace", "ada@example.org", "hash");
    assert_eq!(get_login(Some(row.clone())), Ok(row));
    assert_eq!(get_login(None), Err(Status::Unauthorized));
}
