//! Response payloads of the auth endpoints and the claims carried by a
//! signed token.

use vstd::prelude::*;

verus! {

/// The structured payload inside a signed token: the subject identity
/// (the account's email) and the expiry as a unix timestamp in seconds,
/// 64 bits wide as the token's numeric claim is.
#[derive(Debug)]
pub struct Claims {
    pub sub: String,
    pub exp: u64,
}

/// A response that carries nothing but a human-readable message.
#[derive(Debug)]
pub struct MessageOnlyResponse {
    pub message: String,
}

/// The login response: a message, and the issued token on success
/// (`None` on a failed login).
#[derive(Debug)]
pub struct LoginResponse {
    pub message: String,
    pub token: Option<String>,
}

} // verus!
