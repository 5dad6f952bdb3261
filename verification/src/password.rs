//! Credential hashing: a one-way, salted hash of a guest's password and
//! the matching verification, built on the argon2 crate.
//!
//! `hash` draws a fresh random salt for every call, so two hashes of the
//! same password differ; both still verify. `verify` accepts exactly the
//! PHC strings whose embedded digest matches the password, and answers
//! `false` (never an error) on malformed input or any mismatch, so a
//! caller cannot tell a bad hash from a wrong password.

use vstd::prelude::*;

use argon2::{Argon2, PasswordHash, PasswordHasher, PasswordVerifier};
use argon2::password_hash::SaltString;
use rand_core::OsRng;

verus! {

/// Whether argon2 verification of `phc` against `password` succeeds:
/// the PHC string parses, and the digest recomputed from its embedded
/// salt and parameters matches. A function of the two strings alone.
pub uninterp spec fn argon2_verifies(password: Seq<char>, phc: Seq<char>) -> bool;

/// Relies on argon2's `PasswordHasher::hash_password` with a salt from
/// `SaltString::generate`: every PHC string it returns verifies against
/// the password it was computed from.
#[verifier::external_body]
fn argon2_hash(password: &str) -> (r: Result<String, ()>)
    ensures
        r matches Ok(h) ==> argon2_verifies(password@, h@),
{
    let salt = SaltString::generate(&mut OsRng);
    Argon2::default()
        .hash_password(password.as_bytes(), &salt)
        .map(|h| h.to_string())
        .map_err(|_| ())
}

/// Relies on argon2's `PasswordHash::new` and
/// `PasswordVerifier::verify_password`: both are functions of the
/// password and the PHC string alone, and every failure, malformed
/// input included, comes out as `false`.
#[verifier::external_body]
fn argon2_verify(password: &str, phc: &str) -> (r: bool)
    ensures
        r == argon2_verifies(password@, phc@),
{
    match PasswordHash::new(phc) {
        Ok(parsed) => Argon2::default().verify_password(password.as_bytes(), &parsed).is_ok(),
        Err(_) => false,
    }
}

/// One-way hash of a plaintext password with a fresh random salt.
/// On success the returned PHC string verifies against `password`.
pub fn hash(password: &str) -> (r: Result<String, ()>)
    ensures
        r matches Ok(h) ==> argon2_verifies(password@, h@),
{
    argon2_hash(password)
}

/// Whether `phc` is a well-formed hash of `password`. Malformed input,
/// a mismatched digest and any internal failure are all `false`: the
/// caller cannot distinguish them.
pub fn verify(password: &str, phc: &str) -> (r: bool)
    ensures
        r == argon2_verifies(password@, phc@),
{
    argon2_verify(password, phc)
}

/// A password always verifies against a hash just computed from it:
/// whenever `hash(password)` succeeds, `verify(password, hash)` is true.
/// (The converse direction, that a different password fails, holds only
/// cryptographically and is exercised by tests.)
pub fn hash_then_verify(password: &str) -> (r: Option<bool>)
    ensures
        r matches Some(b) ==> b,
{
    match hash(password) {
        Ok(h) => Some(verify(password, h.as_str())),
        Err(_) => None,
    }
}

} // verus!
