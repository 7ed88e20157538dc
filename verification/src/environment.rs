//! Process-wide configuration for the authentication core: the token
//! signing secret and the storage location, plus the fixed hashing cost
//! and token lifetime. Built once at startup and passed in explicitly;
//! no business logic reads ambient global state.

use vstd::prelude::*;

verus! {

/// Cost factor shared by every password-hash operation.
pub const BCRYPT_COST: u32 = 12;

/// Lifetime, in seconds, of every issued token.
pub const JWT_EXPIRATION_SECONDS: u64 = 3600;

/// Configuration handed to the account service and the auth guard.
/// Built once at process start from the process environment — a missing
/// secret there is a fatal startup error — and passed in by reference.
pub struct Env {
    /// Symmetric secret the token codec signs and verifies with.
    pub jwt_secret: String,
    /// Connection string for the account and task store.
    pub database_url: String,
}

impl Env {
    /// The signing secret.
    pub fn jwt_secret(&self) -> (r: &String)
        ensures
            r@ == self.jwt_secret@,
    {
        &self.jwt_secret
    }

    /// The store's connection string.
    pub fn database_url(&self) -> (r: &String)
        ensures
            r@ == self.database_url@,
    {
        &self.database_url
    }
}

} // verus!
