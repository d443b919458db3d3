//! Room reservations for fixed daily time slots: the credential and identity
//! layer, the rule that keeps two reservations from overlapping, and the
//! decisions behind each operation on users, rooms and bookings.
//!
//! The library holds no store and reads no clock or environment on its own
//! account: callers hand in the rows they looked up and the signing key, and
//! get back what to answer and what to persist.

pub mod auth;
pub mod conflict;
pub mod decimal;
pub mod guard;
pub mod models;
pub mod routes;
pub mod rows;
pub mod status;
