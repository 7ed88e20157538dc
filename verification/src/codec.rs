//! Token codec: issues signed, expiring tokens from a subject identity
//! and verifies signature and expiry on incoming tokens.
//!
//! The token is the standard three-part compact form (header, claims,
//! signature, each base64url-encoded) signed with a symmetric key. The
//! signing and the signature check live in a conforming outside library;
//! what a given token decodes to under a given key is a fixed value,
//! named by the spec function [`decoded_of`]. Expiry is checked here, in
//! verified code, against an explicit clock value, so that verification
//! is a pure function of (token, key, now).

use vstd::prelude::*;
use jsonwebtoken::errors::ErrorKind;
use jsonwebtoken::{Algorithm, DecodingKey, EncodingKey, Header, Validation};
use serde_json::Value;
use std::collections::HashSet;
use crate::responses::Claims;

verus! {

/// What the signed-token library decodes `token` to under `key`:
/// `Some((subject, expiry))` when the token parses, its signature checks
/// out against `key`, and its claims pass the decoder's checks — a string
/// subject, an integer expiry, and no audience claim (the decoder refuses
/// an audience when none is expected); `None` otherwise. Deterministic in
/// its two arguments.
pub uninterp spec fn decoded_of(token: Seq<char>, key: Seq<u8>) -> Option<(Seq<char>, u64)>;

/// Whether `token`, by its text alone, has the form the decoder accepts
/// apart from the signature check: three dot-separated base64url parts,
/// a header naming the expected symmetric algorithm, and a claims object
/// with a string subject, an integer expiry, and no audience claim.
/// Every issued token has this form; a token without it is rejected as
/// `Malformed` under every key.
pub uninterp spec fn wellformed_token(token: Seq<char>) -> bool;

/// Why a token was rejected.
#[derive(Debug, PartialEq, Eq, Structural)]
pub enum TokenError {
    /// The token cannot be parsed into the expected three-part structure.
    Malformed,
    /// The token parses but its signature does not match the key.
    BadSignature,
    /// The token parses and is authentic but its expiry has passed.
    Expired,
}

/// The token parses and is authentic under `key`, and its expiry is
/// still in the future at time `now`: verification succeeds.
pub open spec fn token_accepts(token: Seq<char>, key: Seq<u8>, now: u64) -> bool {
    decoded_of(token, key) matches Some(p) && p.1 > now
}

/// The subject carried by an accepted token.
pub open spec fn token_subject(token: Seq<char>, key: Seq<u8>) -> Seq<char>
    recommends
        decoded_of(token, key) is Some,
{
    decoded_of(token, key)->Some_0.0
}

/// The expiry carried by an accepted token.
pub open spec fn token_expiry(token: Seq<char>, key: Seq<u8>) -> u64
    recommends
        decoded_of(token, key) is Some,
{
    decoded_of(token, key)->Some_0.1
}

/// The token is authentic under `key` but stale at time `now`.
pub open spec fn token_expired(token: Seq<char>, key: Seq<u8>, now: u64) -> bool {
    decoded_of(token, key) matches Some(p) && p.1 <= now
}

/// Relies on jsonwebtoken::encode: serializes `{sub, exp}` claims and
/// signs them with HS256 under `key`; jsonwebtoken::decode on the result
/// with the same key recovers exactly those claims. The call cannot fail:
/// HS256 HMAC accepts a secret of any length, and serializing the fixed
/// header and the two-field claims object cannot error.
#[verifier::external_body]
fn encode_token(sub: &str, exp: u64, key: &[u8]) -> (r: String)
    ensures
        decoded_of(r@, key@) == Some((sub@, exp)),
        wellformed_token(r@),
{
    let mut claims = serde_json::Map::new();
    claims.insert("sub".to_string(), Value::String(sub.to_string()));
    claims.insert("exp".to_string(), Value::from(exp));
    jsonwebtoken::encode(&Header::default(), &Value::Object(claims), &EncodingKey::from_secret(key))
        .expect("HS256 signing of plain claims cannot fail")
}

/// Relies on jsonwebtoken::decode (expiry validation switched off, so the
/// result is a function of token and key alone): returns the claims when
/// the token parses and its HS256 signature matches `key`, the error
/// otherwise, with the library's signature-mismatch error kept apart from
/// every parse failure. Never returns `Expired`, and never `Malformed`
/// for a well-formed token: on such a token every stage but the signature
/// check succeeds.
#[verifier::external_body]
fn decode_token(token: &str, key: &[u8]) -> (r: Result<(String, u64), TokenError>)
    ensures
        r matches Ok(p) ==> decoded_of(token@, key@) == Some((p.0@, p.1)),
        r matches Err(e) ==> decoded_of(token@, key@) is None && e != TokenError::Expired
            && (e == TokenError::Malformed ==> !wellformed_token(token@)),
{
    let mut validation = Validation::new(Algorithm::HS256);
    validation.validate_exp = false;
    validation.required_spec_claims = HashSet::new();
    match jsonwebtoken::decode::<Value>(token, &DecodingKey::from_secret(key), &validation) {
        Ok(d) => match (d.claims.get("sub").and_then(|v| v.as_str()), d.claims.get("exp").and_then(|v| v.as_u64())) {
            (Some(s), Some(e)) => Ok((s.to_string(), e)),
            _ => Err(TokenError::Malformed),
        },
        Err(e) => match e.kind() {
            ErrorKind::InvalidSignature => Err(TokenError::BadSignature),
            _ => Err(TokenError::Malformed),
        },
    }
}

/// Build claims `{subject, now + ttl_seconds}`, serialize and sign them
/// under `key`. The returned token decodes under `key` to exactly these
/// claims.
pub fn issue(subject: &str, ttl_seconds: u64, key: &[u8], now: u64) -> (r: String)
    requires
        now + ttl_seconds <= u64::MAX,
    ensures
        decoded_of(r@, key@) == Some((subject@, (now + ttl_seconds) as u64)),
        wellformed_token(r@),
{
    encode_token(subject, now + ttl_seconds, key)
}

/// Parse `token`, check its signature against `key`, then check
/// `expires_at > now`. Accepts exactly the tokens that are authentic
/// under `key` and not yet expired, and returns their claims; an
/// authentic but stale token fails with `Expired`, every other rejection
/// comes from the decoder as `Malformed` or `BadSignature`. A well-formed
/// token — any issued token — is never `Malformed`: where its key does
/// not accept it and it is not merely stale, the signature is what
/// failed.
pub fn verify(token: &str, key: &[u8], now: u64) -> (r: Result<Claims, TokenError>)
    ensures
        r is Ok <==> token_accepts(token@, key@, now),
        r matches Ok(c) ==> decoded_of(token@, key@) == Some((c.sub@, c.exp)) && c.exp > now,
        r == Err::<Claims, TokenError>(TokenError::Expired) <==> token_expired(token@, key@, now),
        r matches Err(e) && e != TokenError::Expired ==> decoded_of(token@, key@) is None,
        r == Err::<Claims, TokenError>(TokenError::Malformed) ==> !wellformed_token(token@),
        wellformed_token(token@) && decoded_of(token@, key@) is None
            ==> r == Err::<Claims, TokenError>(TokenError::BadSignature),
{
    match decode_token(token, key) {
        Ok((sub, exp)) => {
            if exp > now {
                Ok(Claims { sub, exp })
            } else {
                Err(TokenError::Expired)
            }
        },
        Err(e) => Err(e),
    }
}

/// A token issued at `now0` with lifetime `ttl` verifies successfully
/// under the key it was signed with, and yields the subject it was issued
/// to, provided verification happens before `now0 + ttl`.
pub proof fn lemma_issue_then_verify(t: Seq<char>, subject: Seq<char>, key: Seq<u8>, now0: u64, ttl: u64, now: u64)
    requires
        now0 + ttl <= u64::MAX,
        decoded_of(t, key) == Some((subject, (now0 + ttl) as u64)),
        now < now0 + ttl,
    ensures
        token_accepts(t, key, now),
        token_subject(t, key) == subject,
{
}

/// A token verified at or after its expiry fails, and fails with
/// `Expired` rather than any other rejection.
pub proof fn lemma_expired_token_rejected(t: Seq<char>, subject: Seq<char>, key: Seq<u8>, exp: u64, now: u64)
    requires
        decoded_of(t, key) == Some((subject, exp)),
        exp <= now,
    ensures
        !token_accepts(t, key, now),
        token_expired(t, key, now),
{
}

} // verus!
