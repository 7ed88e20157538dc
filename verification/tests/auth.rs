//! Tests of the authentication core: hashing, token lifecycle, the guard,
//! and the account service.

use todo_auth::accounts::{login, login_error_response, logout, register, register_error_response,
    AccountStore, LoginError, RegisterError};
use todo_auth::codec;
use todo_auth::codec::TokenError;
use todo_auth::environment::Env;
use todo_auth::guards::{auth_error_status, AuthError, AuthGuard};
use todo_auth::hasher;

const COST: u32 = 4;
const KEY: &[u8] = b"test-signing-secret";
const OTHER_KEY: &[u8] = b"another-signing-secret";

#[test]
fn configuration_hands_back_what_it_was_built_with() {
    let env = Env {
        jwt_secret: "s3cr3t".to_string(),
        database_url: "postgres://localhost/todos".to_string(),
    };
    assert_eq!(env.jwt_secret(), "s3cr3t");
    assert_eq!(env.database_url(), "postgres://localhost/todos");
}

#[test]
fn hash_then_verify_succeeds() {
    let h = hasher::hash("secret1", COST).unwrap();
    assert!(hasher::verify("secret1", &h));
}

#[test]
fn hash_output_is_not_the_plaintext() {
    let h = hasher::hash("secret1", COST).unwrap();
    assert_ne!(h, "secret1");
}

#[test]
fn hashing_twice_gives_two_different_strings() {
    let h1 = hasher::hash("secret1", COST).unwrap();
    let h2 = hasher::hash("secret1", COST).unwrap();
    assert_ne!(h1, h2);
    assert!(hasher::verify("secret1", &h1));
    assert!(hasher::verify("secret1", &h2));
}

#[test]
fn wrong_password_verifies_false() {
    let h = hasher::hash("secret1", COST).unwrap();
    assert!(!hasher::verify("secret2", &h));
}

#[test]
fn malformed_stored_hash_verifies_false() {
    assert!(!hasher::verify("secret1", "not-a-stored-hash"));
    assert!(!hasher::verify("secret1", ""));
}

#[test]
fn out_of_range_cost_fails_hashing() {
    assert!(hasher::hash("secret1", 1).is_err());
}

#[test]
fn issue_then_verify_returns_subject() {
    let now: u64 = 1_700_000_000;
    let token = codec::issue("a@b.co", 3600, KEY, now);
    let claims = codec::verify(&token, KEY, now).unwrap();
    assert_eq!(claims.sub, "a@b.co");
    assert_eq!(claims.exp, now + 3600);
    let late = codec::verify(&token, KEY, now + 3599).unwrap();
    assert_eq!(late.sub, "a@b.co");
}

#[test]
fn token_differs_from_its_subject() {
    let token = codec::issue("a@b.co", 3600, KEY, 1_700_000_000);
    assert_ne!(token, "a@b.co");
    assert_eq!(token.split('.').count(), 3);
}

#[test]
fn expired_token_fails_with_expired() {
    let now: u64 = 1_700_000_000;
    let token = codec::issue("a@b.co", 3600, KEY, now);
    assert_eq!(codec::verify(&token, KEY, now + 3600).unwrap_err(), TokenError::Expired);
    assert_eq!(codec::verify(&token, KEY, now + 100_000).unwrap_err(), TokenError::Expired);
}

#[test]
fn wrong_key_fails_with_bad_signature() {
    let now: u64 = 1_700_000_000;
    let token = codec::issue("a@b.co", 3600, KEY, now);
    assert_eq!(codec::verify(&token, OTHER_KEY, now).unwrap_err(), TokenError::BadSignature);
}

#[test]
fn garbage_token_fails_with_malformed() {
    assert_eq!(codec::verify("garbage", KEY, 0).unwrap_err(), TokenError::Malformed);
    assert_eq!(codec::verify("", KEY, 0).unwrap_err(), TokenError::Malformed);
}

#[test]
fn guard_rejects_missing_header() {
    let r = AuthGuard::from_request(None, KEY, 1_700_000_000);
    let e = r.unwrap_err();
    assert_eq!(e, AuthError::Missing);
    assert_eq!(auth_error_status(&e), 401);
}

#[test]
fn guard_rejects_bearer_garbage() {
    let r = AuthGuard::from_request(Some("Bearer garbage"), KEY, 1_700_000_000);
    let e = r.unwrap_err();
    assert_eq!(e, AuthError::Invalid);
    assert_eq!(auth_error_status(&e), 401);
}

#[test]
fn guard_rejects_expired_bearer_token() {
    let now: u64 = 1_700_000_000;
    let token = codec::issue("a@b.co", 3600, KEY, now);
    let header = format!("Bearer {}", token);
    let r = AuthGuard::from_request(Some(&header), KEY, now + 3600);
    assert_eq!(r.unwrap_err(), AuthError::Invalid);
}

#[test]
fn guard_admits_valid_bearer_token() {
    let now: u64 = 1_700_000_000;
    let token = codec::issue("a@b.co", 3600, KEY, now);
    let header = format!("Bearer {}", token);
    let guard = AuthGuard::from_request(Some(&header), KEY, now).unwrap();
    assert_eq!(guard.claims.sub, "a@b.co");
    assert_eq!(guard.claims.exp, now + 3600);
}

#[test]
fn guard_admits_token_without_bearer_prefix() {
    let now: u64 = 1_700_000_000;
    let token = codec::issue("a@b.co", 3600, KEY, now);
    let guard = AuthGuard::from_request(Some(&token), KEY, now).unwrap();
    assert_eq!(guard.claims.sub, "a@b.co");
}

#[test]
fn register_then_duplicate_conflicts_and_count_stays_one() {
    let mut store = AccountStore::new();
    let ok = register(&mut store, "user@test.com", "secret1", COST).unwrap();
    assert_eq!(ok.message, "User registered successfully!");
    assert_eq!(store.len(), 1);

    let again = register(&mut store, "user@test.com", "secret1", COST);
    let e = again.unwrap_err();
    assert_eq!(e, RegisterError::Conflict);
    assert_eq!(store.len(), 1);

    let (status, body) = register_error_response(&e);
    assert_eq!(status, 409);
    assert_eq!(body.message, "User with this email already exists!");
}

#[test]
fn register_rejects_malformed_email() {
    let mut store = AccountStore::new();
    let e = register(&mut store, "not-an-email", "secret1", COST).unwrap_err();
    assert_eq!(e, RegisterError::InvalidEmail);
    assert_eq!(store.len(), 0);

    let (status, body) = register_error_response(&e);
    assert_eq!(status, 400);
    assert_eq!(body.message, "Invalid email address!");
}

#[test]
fn register_error_response_maps_hashing_to_500() {
    let (status, body) = register_error_response(&RegisterError::Hashing);
    assert_eq!(status, 500);
    assert_eq!(body.message, "Failed to hash password!");
}

#[test]
fn login_with_correct_credentials_returns_token() {
    let now: u64 = 1_700_000_000;
    let mut store = AccountStore::new();
    register(&mut store, "user@test.com", "secret1", COST).unwrap();

    let resp = login(&store, "user@test.com", "secret1", KEY, 3600, now).unwrap();
    assert_eq!(resp.message, "User user@test.com logged in successfully!");
    let token = resp.token.unwrap();
    assert!(!token.is_empty());

    let claims = codec::verify(&token, KEY, now).unwrap();
    assert_eq!(claims.sub, "user@test.com");
    assert_eq!(claims.exp, now + 3600);
}

#[test]
fn login_token_passes_the_guard() {
    let now: u64 = 1_700_000_000;
    let mut store = AccountStore::new();
    register(&mut store, "user@test.com", "secret1", COST).unwrap();
    let resp = login(&store, "user@test.com", "secret1", KEY, 3600, now).unwrap();
    let header = format!("Bearer {}", resp.token.unwrap());
    let guard = AuthGuard::from_request(Some(&header), KEY, now).unwrap();
    assert_eq!(guard.claims.sub, "user@test.com");
}

#[test]
fn login_failures_are_indistinguishable() {
    let now: u64 = 1_700_000_000;
    let mut store = AccountStore::new();
    register(&mut store, "user@test.com", "secret1", COST).unwrap();

    let wrong_password = login(&store, "user@test.com", "wrong", KEY, 3600, now).unwrap_err();
    let unknown_email = login(&store, "ghost@test.com", "secret1", KEY, 3600, now).unwrap_err();
    assert_eq!(wrong_password, LoginError::InvalidCredentials);
    assert_eq!(unknown_email, LoginError::InvalidCredentials);

    let (status_a, body_a) = login_error_response(&wrong_password);
    let (status_b, body_b) = login_error_response(&unknown_email);
    assert_eq!(status_a, 401);
    assert_eq!(status_b, 401);
    assert_eq!(body_a.message, body_b.message);
    assert_eq!(body_a.message, "Invalid email or password!");
    assert!(body_a.token.is_none());
    assert!(body_b.token.is_none());
}

#[test]
fn logout_acknowledges_statelessly() {
    assert_eq!(logout().message, "User logged out successfully!");
}

#[test]
fn find_account_by_email_sees_only_registered_emails() {
    let mut store = AccountStore::new();
    register(&mut store, "user@test.com", "secret1", COST).unwrap();
    let account = store.find_account_by_email("user@test.com").unwrap();
    assert_eq!(account.email, "user@test.com");
    assert_ne!(account.password_hash, "secret1");
    assert!(store.find_account_by_email("other@test.com").is_none());
}
