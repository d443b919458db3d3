//! Credentials and identity: password hashes, and the signed tokens that
//! carry a user's id from one request to the next.

use argon2::password_hash::rand_core::OsRng;
use argon2::password_hash::SaltString;
use argon2::{Argon2, PasswordHash, PasswordHasher, PasswordVerifier};
use vstd::prelude::*;
use vstd::string::StrSliceExecFns;
use crate::decimal::{decimal, lemma_parse_decimal, parse_i32, spec_decimal, spec_parse_i32};
use crate::models::user::{user_by_id, User};
use crate::rows::lemma_first_where;

verus! {

/// Whether Argon2, with the parameters and salt that `encoded` carries,
/// derives from `password` the digest that `encoded` carries. It is false
/// of a text that is no encoded hash.
pub uninterp spec fn argon2_accepts(password: Seq<char>, encoded: Seq<char>) -> bool;

/// Hashes a password under a fresh random salt and returns the encoded
/// hash, or `None` where Argon2 reports an error.
///
/// Trusted: calls `argon2::Argon2::hash_password` with a salt from
/// `SaltString::generate`. The salt is random, so nothing is said of the
/// text that comes back but that verifying `password` against it succeeds:
/// verification recomputes the digest from the salt and parameters written
/// into the text.
#[verifier::external_body]
pub fn hash_password(password: &str) -> (encoded: Option<String>)
    ensures
        encoded matches Some(e) ==> argon2_accepts(password@, e@),
{
    let salt = SaltString::generate(&mut OsRng);
    match Argon2::default().hash_password(password.as_bytes(), &salt) {
        Ok(hash) => Some(hash.to_string()),
        Err(_) => None,
    }
}

/// Checks a password against an encoded hash. A text that is no encoded
/// hash matches no password.
///
/// Trusted: calls `argon2::Argon2::verify_password` on what
/// `argon2::PasswordHash::new` reads from `password_hash`. The answer
/// depends on the two texts alone and is named `argon2_accepts`.
#[verifier::external_body]
pub fn verify_password(password: &str, password_hash: &str) -> (ok: bool)
    ensures
        ok == argon2_accepts(password@, password_hash@),
{
    match PasswordHash::new(password_hash) {
        Ok(parsed) => Argon2::default().verify_password(password.as_bytes(), &parsed).is_ok(),
        Err(_) => false,
    }
}

/// The value of an `Authorization` header as it came in.
#[derive(Debug)]
pub struct Token<'r>(pub &'r str);

/// What a token asserts: the subject, as the decimal text of a user id, and
/// the instant, in seconds since the epoch, at which it stops being valid.
#[derive(Debug, PartialEq, Eq)]
pub struct Claims {
    pub sub: String,
    pub exp: usize,
}

/// How long a token is valid from its issue, in seconds: 24 hours.
pub const TOKEN_LIFETIME: i64 = 86400;

/// The length of the `Bearer ` prefix. A header value shorter than this
/// holds no token.
pub const BEARER_LEN: usize = 7;

/// The compact HS256 token over the claims `sub` and `exp`, signed with
/// `secret`, or `None` where the encoder reports an error.
pub uninterp spec fn hs256_token(sub: Seq<char>, exp: nat, secret: Seq<char>) -> Option<Seq<char>>;

/// The claims `sub` and `exp` of `token`, if it is a compact token whose
/// header names HS256, whose signature is the one that `secret` gives, and
/// whose claims hold a text `sub` and a natural number `exp`. Expiry is not
/// looked at.
pub uninterp spec fn hs256_claims(token: Seq<char>, secret: Seq<char>) -> Option<(Seq<char>, nat)>;

/// Whether a character can occur in a compact token: the URL-safe base64
/// alphabet, and the dot between the parts.
pub open spec fn is_token_char(c: char) -> bool {
    ('A' <= c && c <= 'Z') || ('a' <= c && c <= 'z') || ('0' <= c && c <= '9') || c == '-' || c
        == '_' || c == '.'
}

/// The shape of a compact HS256 token: three base64 parts joined by dots,
/// the last of them the 43 characters of a 32-byte signature.
pub open spec fn token_shaped(token: Seq<char>) -> bool {
    &&& token.len() > 43
    &&& forall|i: int| 0 <= i < token.len() ==> is_token_char(#[trigger] token[i])
}

/// What the decoder read, by its values.
pub open spec fn read_claims(claims: Option<(String, u64)>) -> Option<(Seq<char>, nat)> {
    match claims {
        Some((sub, exp)) => Some((sub@, exp as nat)),
        None => None,
    }
}

/// The characters of an optional text.
pub open spec fn token_text(token: Option<String>) -> Option<Seq<char>> {
    match token {
        Some(t) => Some(t@),
        None => None,
    }
}

/// Signs the claims with `secret` under HS256.
///
/// Trusted: calls `jsonwebtoken::encode` with the header of
/// `Header::new(Algorithm::HS256)` and the key of
/// `EncodingKey::from_secret`. The token depends on the claims and the
/// secret alone and is named `hs256_token`. The encoder joins three
/// URL-safe base64 parts with dots, the last the 32-byte signature, hence
/// `token_shaped`. `jsonwebtoken::decode` with the same secret recomputes
/// that signature and reads the same claims back, hence the last clause.
#[verifier::external_body]
fn sign_hs256(claims: &Claims, secret: &str) -> (token: Option<String>)
    ensures
        token_text(token) == hs256_token(claims.sub@, claims.exp as nat, secret@),
        token matches Some(t) ==> token_shaped(t@) && hs256_claims(t@, secret@) == Some(
            (claims.sub@, claims.exp as nat),
        ),
{
    let mut body = serde_json::Map::new();
    body.insert("sub".to_owned(), serde_json::Value::from(claims.sub.as_str()));
    body.insert("exp".to_owned(), serde_json::Value::from(claims.exp));
    let header = jsonwebtoken::Header::new(jsonwebtoken::Algorithm::HS256);
    let key = jsonwebtoken::EncodingKey::from_secret(secret.as_bytes());
    jsonwebtoken::encode(&header, &body, &key).ok()
}

/// Checks the signature of `token` against `secret` and reads its claims.
///
/// Trusted: calls `jsonwebtoken::decode` with the key of
/// `DecodingKey::from_secret` and `Validation::new(Algorithm::HS256)` with
/// `validate_exp` switched off, so that the call reads no clock and its
/// answer depends on the token and the secret alone; it is named
/// `hs256_claims`. A token without the claims `sub` (a text) and `exp` (a
/// natural number below 2^64) gives `None`.
#[verifier::external_body]
fn open_hs256(token: &str, secret: &str) -> (claims: Option<(String, u64)>)
    ensures
        read_claims(claims) == hs256_claims(token@, secret@),
{
    let key = jsonwebtoken::DecodingKey::from_secret(secret.as_bytes());
    let mut validation = jsonwebtoken::Validation::new(jsonwebtoken::Algorithm::HS256);
    validation.validate_exp = false;
    let data = jsonwebtoken::decode::<serde_json::Map<String, serde_json::Value>>(
        token,
        &key,
        &validation,
    ).ok()?;
    let sub = data.claims.get("sub")?.as_str()?.to_owned();
    let exp = data.claims.get("exp")?.as_u64()?;
    Some((sub, exp))
}

/// The current time in seconds since the epoch.
///
/// Trusted: calls `chrono::Utc::now` and `timestamp`. Nothing is said of
/// the result: it is the clock's.
#[verifier::external_body]
fn current_timestamp() -> i64 {
    chrono::Utc::now().timestamp()
}

/// What an `Authorization` header holds.
#[derive(Debug, PartialEq, Eq)]
pub enum Bearer<'r> {
    /// Nothing at all.
    Absent,
    /// Something too short to hold a token.
    Malformed,
    /// A token: what follows `Bearer `, or the whole value without that
    /// prefix.
    Valid(&'r str),
}

/// The prefix that may stand before a token.
pub open spec fn bearer_prefix() -> Seq<char> {
    seq!['B', 'e', 'a', 'r', 'e', 'r', ' ']
}

/// Whether a header value begins with `Bearer `.
pub open spec fn has_bearer_prefix(raw: Seq<char>) -> bool {
    raw.len() >= BEARER_LEN && raw.subrange(0, BEARER_LEN as int) == bearer_prefix()
}

/// The token that a header value holds: none in a value shorter than the
/// prefix; else what follows the prefix, or the whole value without it.
pub open spec fn bearer_payload(raw: Seq<char>) -> Option<Seq<char>> {
    if raw.len() < BEARER_LEN {
        None
    } else if has_bearer_prefix(raw) {
        Some(raw.subrange(BEARER_LEN as int, raw.len() as int))
    } else {
        Some(raw)
    }
}

/// Reads an `Authorization` header value.
pub fn parse_bearer(raw: &str) -> (header: Bearer<'_>)
    ensures
        header is Absent <==> raw@.len() == 0,
        header is Malformed <==> 0 < raw@.len() < BEARER_LEN,
        match header {
            Bearer::Valid(token) => bearer_payload(raw@) == Some(token@),
            _ => bearer_payload(raw@) is None,
        },
{
    let len = raw.unicode_len();
    if len == 0 {
        return Bearer::Absent;
    }
    if len < BEARER_LEN {
        return Bearer::Malformed;
    }
    let prefixed = raw.get_char(0) == 'B' && raw.get_char(1) == 'e' && raw.get_char(2) == 'a'
        && raw.get_char(3) == 'r' && raw.get_char(4) == 'e' && raw.get_char(5) == 'r'
        && raw.get_char(6) == ' ';
    proof {
        let head = raw@.subrange(0, BEARER_LEN as int);
        if prefixed {
            assert(head =~= bearer_prefix());
        } else {
            assert(head != bearer_prefix()) by {
                if head == bearer_prefix() {
                    assert(head[0] == 'B' && head[1] == 'e' && head[2] == 'a' && head[3] == 'r'
                        && head[4] == 'e' && head[5] == 'r' && head[6] == ' ');
                }
            }
        }
    }
    if prefixed {
        Bearer::Valid(raw.substring_char(BEARER_LEN, len))
    } else {
        Bearer::Valid(raw)
    }
}

/// The instant at which a token issued at `now` stops being valid, if that
/// instant can be written into a token.
pub open spec fn token_expiry(now: int) -> Option<nat> {
    let expiry = now + TOKEN_LIFETIME;
    if 0 <= expiry <= i64::MAX && expiry <= usize::MAX {
        Some(expiry as nat)
    } else {
        None
    }
}

/// The token issued to user `id` at `now`.
pub open spec fn spec_encode_token(id: i32, secret: Seq<char>, now: int) -> Option<Seq<char>> {
    match token_expiry(now) {
        Some(exp) => hs256_token(spec_decimal(id as int), exp, secret),
        None => None,
    }
}

/// The user id that a header value proves at `now`: the subject of the
/// token it holds, if the signature is the one that `secret` gives, the
/// token has not expired, and the subject is the decimal text of an id.
pub open spec fn spec_decode_token(raw: Seq<char>, secret: Seq<char>, now: int) -> Option<i32> {
    match bearer_payload(raw) {
        Some(token) => match hs256_claims(token, secret) {
            Some((sub, exp)) => if exp < now {
                None
            } else {
                spec_parse_i32(sub)
            },
            None => None,
        },
        None => None,
    }
}

/// A token-shaped text is long enough to be read as a header value, and is
/// read whole: it holds no space, so it does not begin with `Bearer `.
pub proof fn lemma_token_is_its_own_payload(token: Seq<char>)
    requires
        token_shaped(token),
    ensures
        bearer_payload(token) == Some(token),
{
    if has_bearer_prefix(token) {
        assert(token.subrange(0, BEARER_LEN as int)[6] == ' ');
        assert(is_token_char(token[6]));
    }
}

/// Whether `token` is what issuing to user `id` at `now` gives: the signed
/// token over the decimal text of `id` and the expiry 24 hours after `now`,
/// which proves `id` at every instant up to that expiry and nothing after
/// it.
pub open spec fn issued(token: Option<String>, id: i32, secret: Seq<char>, now: int) -> bool {
    &&& token_text(token) == spec_encode_token(id, secret, now)
    &&& token matches Some(t) ==> token_shaped(t@) && forall|at: int| #[trigger]
        spec_decode_token(t@, secret, at) == if at <= now + TOKEN_LIFETIME {
            Some(id)
        } else {
            None
        }
}

/// Issues a token to user `id` at the instant `now`, valid for 24 hours.
/// `None` where the expiry cannot be written into a token or the encoder
/// reports an error. Until it expires the token proves `id`.
pub fn encode_token_at(id: i32, secret: &str, now: i64) -> (token: Option<String>)
    ensures
        issued(token, id, secret@, now as int),
{
    let expiry = match now.checked_add(TOKEN_LIFETIME) {
        Some(e) => e,
        None => {
            return None;
        },
    };
    if expiry < 0 || expiry as u64 > usize::MAX as u64 {
        return None;
    }
    let claims = Claims { sub: decimal(id), exp: expiry as usize };
    let token = sign_hs256(&claims, secret);
    proof {
        if token is Some {
            lemma_token_is_its_own_payload(token->0@);
            lemma_parse_decimal(id);
        }
    }
    token
}

/// Issues a token to user `id` now, valid for 24 hours.
pub fn encode_token(id: i32, secret: &str) -> (token: Option<String>)
    ensures
        exists|now: int| #[trigger] issued(token, id, secret@, now),
{
    let now = current_timestamp();
    let token = encode_token_at(id, secret, now);
    token
}

/// The user id that the header value `token` proves at the instant `now`.
pub fn decode_token_at(token: &str, secret: &str, now: i64) -> (id: Option<i32>)
    ensures
        id == spec_decode_token(token@, secret@, now as int),
{
    let bare = match parse_bearer(token) {
        Bearer::Valid(bare) => bare,
        _ => {
            return None;
        },
    };
    match open_hs256(bare, secret) {
        Some((sub, exp)) => {
            if now > 0 && exp < now as u64 {
                None
            } else {
                parse_i32(sub.as_str())
            }
        },
        None => None,
    }
}

/// The user id that the header value `token` proves now. Whatever the
/// clock says, a value shorter than the `Bearer ` prefix, or one whose
/// token does not carry the signature that `secret` gives, proves none.
pub fn decode_token(token: &str, secret: &str) -> (id: Option<i32>)
    ensures
        exists|now: int| id == #[trigger] spec_decode_token(token@, secret@, now),
        token@.len() < BEARER_LEN ==> id is None,
        bearer_payload(token@) matches Some(bare) ==> hs256_claims(bare, secret@) is None ==> id
            is None,
{
    let now = current_timestamp();
    let id = decode_token_at(token, secret, now);
    id
}

/// A header value shorter than the `Bearer ` prefix, the empty one among
/// them, proves no identity, whatever the secret and the time.
pub proof fn lemma_short_header_rejected(raw: Seq<char>, secret: Seq<char>, now: int)
    requires
        raw.len() < BEARER_LEN,
    ensures
        spec_decode_token(raw, secret, now) is None,
{
}

/// A token whose expiry lies in the past proves no identity, whatever its
/// signature and subject.
pub proof fn lemma_expired_token_rejected(raw: Seq<char>, secret: Seq<char>, now: int)
    requires
        bearer_payload(raw) matches Some(token) && (hs256_claims(token, secret) matches Some(
            claims,
        ) && claims.1 < now),
    ensures
        spec_decode_token(raw, secret, now) is None,
{
}

/// A token whose signature does not verify under `secret` proves no
/// identity, whatever the time.
pub proof fn lemma_unverified_token_rejected(raw: Seq<char>, secret: Seq<char>, now: int)
    requires
        bearer_payload(raw) matches Some(token) && hs256_claims(token, secret) is None,
    ensures
        spec_decode_token(raw, secret, now) is None,
{
}

/// A token that proves an identity at some instant proves the same one at
/// every earlier instant.
pub proof fn lemma_valid_until_expiry(raw: Seq<char>, secret: Seq<char>, later: int, earlier: int)
    requires
        earlier <= later,
        spec_decode_token(raw, secret, later) is Some,
    ensures
        spec_decode_token(raw, secret, earlier) == spec_decode_token(raw, secret, later),
{
}

/// The user that a header value proves at `now`: the stored user whose id
/// the token carries.
pub open spec fn spec_user_from_token(
    raw: Seq<char>,
    secret: Seq<char>,
    users: Seq<User>,
    now: int,
) -> Option<User> {
    match spec_decode_token(raw, secret, now) {
        Some(id) => user_by_id(users, id),
        None => None,
    }
}

/// Resolves the header value `token` to one of `users` at the instant
/// `now`. The role is read from the stored row, never from the token.
pub fn user_from_token_at(token: &str, secret: &str, users: &Vec<User>, now: i64) -> (user: Option<
    User,
>)
    ensures
        user == spec_user_from_token(token@, secret@, users@, now as int),
{
    match decode_token_at(token, secret, now) {
        Some(id) => User::by_id(users, id),
        None => None,
    }
}

/// Resolves the header value `token` to one of `users` now.
pub fn user_from_token(token: &str, secret: &str, users: &Vec<User>) -> (user: Option<User>)
    ensures
        exists|now: int| user == #[trigger] spec_user_from_token(token@, secret@, users@, now),
        user matches Some(u) ==> users@.contains(u),
{
    let now = current_timestamp();
    let user = user_from_token_at(token, secret, users, now);
    proof {
        if let Some(id) = spec_decode_token(token@, secret@, now as int) {
            lemma_first_where(users@, |u: User| u.id == Some(id));
        }
    }
    user
}

} // verus!
