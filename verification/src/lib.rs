//! Verified core of a small hotel-booking backend: password hashing and
//! verification, signed session tokens, cookie/bearer session transport,
//! and the request-gating decisions that resolve a token to a guest.

pub mod booking;
pub mod carrier;
pub mod email;
pub mod envelope;
pub mod flows;
pub mod guest;
pub mod password;
pub mod schema;
pub mod text;
pub mod token;
