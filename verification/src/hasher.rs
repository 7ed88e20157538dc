//! Credential hasher: salted one-way hashing of passwords and
//! verification of a plaintext against a stored hash.
//!
//! Whether a plaintext and a stored hash belong together is decided by
//! the bcrypt algorithm; the spec function [`password_matches`] names
//! that decision, and every contract in the account service speaks of it.

use vstd::prelude::*;

verus! {

/// Holds exactly when bcrypt accepts `password` against `stored_hash`.
/// Deterministic in its two arguments: verification re-derives the hash
/// from the salt embedded in `stored_hash` and compares.
pub uninterp spec fn password_matches(password: Seq<char>, stored_hash: Seq<char>) -> bool;

/// The hasher failed internally (salt generation, or a cost factor the
/// algorithm refuses); surfaced to clients as a generic server error.
#[derive(Debug, PartialEq, Eq, Structural)]
pub enum HashingError {
    Internal,
}

/// Relies on bcrypt::hash: on success the returned string is a salted
/// hash that bcrypt::verify accepts for this password, and for no input
/// does the call panic (range and randomness failures come back as Err).
#[verifier::external_body]
fn bcrypt_hash(password: &str, cost: u32) -> (r: Result<String, HashingError>)
    ensures
        r matches Ok(h) ==> password_matches(password@, h@),
{
    bcrypt::hash(password, cost).map_err(|_| HashingError::Internal)
}

/// Relies on bcrypt::verify: deterministic check of a password against a
/// stored hash; a malformed stored hash yields Err, mapped here to false,
/// so a stored hash that bcrypt never produced matches no password.
#[verifier::external_body]
fn bcrypt_check(password: &str, stored_hash: &str) -> (r: bool)
    ensures
        r == password_matches(password@, stored_hash@),
{
    bcrypt::verify(password, stored_hash).unwrap_or(false)
}

/// Produce a salted one-way hash of `plaintext`. Distinct calls salt
/// independently, so nothing relates two hashes of one plaintext beyond
/// both matching it.
pub fn hash(plaintext: &str, cost: u32) -> (r: Result<String, HashingError>)
    ensures
        r matches Ok(h) ==> password_matches(plaintext@, h@),
{
    bcrypt_hash(plaintext, cost)
}

/// Check `plaintext` against a stored hash. Never fails: a wrong password
/// and a malformed stored hash both come back as plain `false`.
pub fn verify(plaintext: &str, stored_hash: &str) -> (r: bool)
    ensures
        r == password_matches(plaintext@, stored_hash@),
{
    bcrypt_check(plaintext, stored_hash)
}

} // verus!
