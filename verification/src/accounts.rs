//! Account service: registration (validate, check uniqueness, hash,
//! persist) and login (look up, verify the password, issue a token), over
//! a store of accounts keyed uniquely by email.
//!
//! The store keeps an account's email and password hash; a plaintext
//! password is never persisted. Login failure is one uniform rejection
//! whether the email is unknown or the password wrong.

use vstd::prelude::*;
use crate::codec;
use crate::codec::decoded_of;
use crate::hasher;
use crate::hasher::password_matches;
use crate::responses::{LoginResponse, MessageOnlyResponse};
use crate::strutil::str_eq;
use crate::validators;
use crate::validators::is_email_spec;

verus! {

/// A stored account. The hash is one-way: the plaintext is neither equal
/// to it nor recoverable from it.
#[derive(Debug)]
pub struct Account {
    /// Assigned by the store; `None` until it has.
    pub id: Option<i32>,
    pub email: String,
    pub password_hash: String,
}

/// The account store: at most one account per email.
#[derive(Debug)]
pub struct AccountStore {
    accounts: Vec<Account>,
}

/// No two accounts share an email.
pub open spec fn emails_unique(s: Seq<Account>) -> bool {
    forall|i: int, j: int|
        0 <= i < j < s.len() ==> (#[trigger] s[i].email)@ != (#[trigger] s[j].email)@
}

/// Some account in `s` is stored under `email`.
pub open spec fn contains_account(s: Seq<Account>, email: Seq<char>) -> bool {
    exists|i: int| 0 <= i < s.len() && (#[trigger] s[i].email)@ == email
}

/// The position of the account stored under `email`.
pub open spec fn account_index(s: Seq<Account>, email: Seq<char>) -> int {
    choose|i: int| 0 <= i < s.len() && (#[trigger] s[i].email)@ == email
}

/// The hash stored under `email`.
pub open spec fn stored_hash(s: Seq<Account>, email: Seq<char>) -> Seq<char> {
    s[account_index(s, email)].password_hash@
}

/// The pair (email, password) is valid against the store: the email is
/// registered and the password matches its stored hash.
pub open spec fn credentials_ok(s: Seq<Account>, email: Seq<char>, password: Seq<char>) -> bool {
    contains_account(s, email) && password_matches(password, stored_hash(s, email))
}

impl View for AccountStore {
    type V = Seq<Account>;

    closed spec fn view(&self) -> Seq<Account> {
        self.accounts@
    }
}

/// The store refused an insert.
#[derive(Debug, PartialEq, Eq, Structural)]
pub enum StoreError {
    /// An account already exists under the email.
    Conflict,
}

impl AccountStore {
    /// Emails are pairwise distinct.
    pub open spec fn wf(&self) -> bool {
        emails_unique(self@)
    }

    /// The store holds an account under `email`.
    pub open spec fn contains_email(&self, email: Seq<char>) -> bool {
        contains_account(self@, email)
    }

    /// An empty store.
    pub fn new() -> (r: AccountStore)
        ensures
            r@ =~= Seq::<Account>::empty(),
            r.wf(),
    {
        AccountStore { accounts: Vec::new() }
    }

    /// How many accounts are stored.
    pub fn len(&self) -> (n: usize)
        ensures
            n == self@.len(),
    {
        self.accounts.len()
    }

    /// Single-row read: the account stored under `email`, if any.
    pub fn find_account_by_email(&self, email: &str) -> (r: Option<&Account>)
        requires
            self.wf(),
        ensures
            r is Some <==> self.contains_email(email@),
            r matches Some(a) ==> a.email@ == email@
                && a.password_hash@ == stored_hash(self@, email@),
    {
        let mut i: usize = 0;
        while i < self.accounts.len()
            invariant
                i <= self.accounts.len(),
                self.wf(),
                forall|j: int| 0 <= j < i ==> (#[trigger] self@[j].email)@ != email@,
            decreases self.accounts.len() - i,
        {
            if str_eq(self.accounts[i].email.as_str(), email) {
                proof {
                    let idx = account_index(self@, email@);
                    if idx != i {
                        assert(self@[idx].email@ == email@);
                        assert(false);
                    }
                }
                return Some(&self.accounts[i]);
            }
            i += 1;
        }
        proof {
            if self.contains_email(email@) {
                let idx = account_index(self@, email@);
                assert(self@[idx].email@ == email@);
                assert(false);
            }
        }
        None
    }

    /// Single-row write: store `{email, password_hash}`, refusing a
    /// duplicate email so uniqueness is kept.
    pub fn insert_account(&mut self, email: &str, password_hash: &str) -> (r: Result<(), StoreError>)
        requires
            old(self).wf(),
        ensures
            final(self).wf(),
            r is Err <==> old(self).contains_email(email@),
            r is Err ==> final(self)@ == old(self)@,
            r is Ok ==> final(self)@.len() == old(self)@.len() + 1
                && final(self)@.subrange(0, old(self)@.len() as int) == old(self)@
                && final(self)@.last().email@ == email@
                && final(self)@.last().password_hash@ == password_hash@
                && final(self)@.last().id is None,
    {
        if self.find_account_by_email(email).is_some() {
            return Err(StoreError::Conflict);
        }
        let account = Account {
            id: None,
            email: email.to_owned(),
            password_hash: password_hash.to_owned(),
        };
        self.accounts.push(account);
        proof {
            let s1 = self@;
            let s0 = old(self)@;
            assert(s1.subrange(0, s0.len() as int) =~= s0);
            assert forall|i: int, j: int| 0 <= i < j < s1.len() implies
                (#[trigger] s1[i].email)@ != (#[trigger] s1[j].email)@ by {
                if j == s1.len() - 1 {
                    if s1[i].email@ == email@ {
                        assert(s0[i].email@ == email@);
                        assert(false);
                    }
                }
            }
        }
        Ok(())
    }
}

/// In a store that an account under `email` was just pushed onto, and
/// that held none before, lookup under `email` finds exactly the pushed
/// account.
pub proof fn lemma_fresh_account_lookup(s0: Seq<Account>, s1: Seq<Account>, email: Seq<char>)
    requires
        s1.len() == s0.len() + 1,
        s1.subrange(0, s0.len() as int) == s0,
        s1.last().email@ == email,
        !contains_account(s0, email),
    ensures
        contains_account(s1, email),
        stored_hash(s1, email) == s1.last().password_hash@,
{
    assert(s1[s1.len() - 1].email@ == email);
    let idx = account_index(s1, email);
    assert(0 <= idx < s1.len() && s1[idx].email@ == email);
    if idx < s1.len() - 1 {
        assert(s1.subrange(0, s0.len() as int)[idx] == s1[idx]);
        assert(s0[idx].email@ == email);
        assert(false);
    }
}

/// A freshly registered account logs in: after a registration that
/// stored a hash matching `password` under `email`, the credentials
/// (email, password) are valid against the new store.
pub proof fn lemma_registered_account_logs_in(s0: Seq<Account>, s1: Seq<Account>, email: Seq<char>, password: Seq<char>)
    requires
        s1.len() == s0.len() + 1,
        s1.subrange(0, s0.len() as int) == s0,
        s1.last().email@ == email,
        !contains_account(s0, email),
        password_matches(password, s1.last().password_hash@),
    ensures
        credentials_ok(s1, email, password),
{
    lemma_fresh_account_lookup(s0, s1, email);
}

/// In a well-formed store at most one account sits under any email: two
/// positions that both hold `email` are the same position.
pub proof fn lemma_email_has_one_account(s: Seq<Account>, email: Seq<char>, i: int, j: int)
    requires
        emails_unique(s),
        0 <= i < s.len(),
        0 <= j < s.len(),
        s[i].email@ == email,
        s[j].email@ == email,
    ensures
        i == j,
{
}

/// Registration failed before anything was persisted.
#[derive(Debug, PartialEq, Eq, Structural)]
pub enum RegisterError {
    /// The email does not have a well-formed address shape.
    InvalidEmail,
    /// An account already exists under the email.
    Conflict,
    /// The credential hasher failed internally.
    Hashing,
}

/// Register an account: validate the email shape, refuse a duplicate,
/// hash the password, persist `{email, hash}`. All-or-nothing: on any
/// error the store is unchanged. No token is issued on registration.
pub fn register(store: &mut AccountStore, email: &str, password: &str, cost: u32) -> (r: Result<
    MessageOnlyResponse,
    RegisterError,
>)
    requires
        old(store).wf(),
    ensures
        final(store).wf(),
        r == Err::<MessageOnlyResponse, RegisterError>(RegisterError::InvalidEmail)
            <==> !is_email_spec(email@),
        r == Err::<MessageOnlyResponse, RegisterError>(RegisterError::Conflict)
            <==> is_email_spec(email@) && old(store).contains_email(email@),
        r == Err::<MessageOnlyResponse, RegisterError>(RegisterError::Hashing)
            ==> is_email_spec(email@) && !old(store).contains_email(email@),
        r is Err ==> final(store)@ == old(store)@,
        r matches Ok(m) ==> {
            &&& is_email_spec(email@)
            &&& !old(store).contains_email(email@)
            &&& final(store)@.len() == old(store)@.len() + 1
            &&& final(store)@.subrange(0, old(store)@.len() as int) == old(store)@
            &&& final(store)@.last().email@ == email@
            &&& final(store)@.last().id is None
            &&& password_matches(password@, final(store)@.last().password_hash@)
            &&& credentials_ok(final(store)@, email@, password@)
            &&& m.message@ == "User registered successfully!"@
        },
{
    if !validators::is_email(email) {
        return Err(RegisterError::InvalidEmail);
    }
    if store.find_account_by_email(email).is_some() {
        return Err(RegisterError::Conflict);
    }
    let hashed = match hasher::hash(password, cost) {
        Ok(h) => h,
        Err(_) => {
            return Err(RegisterError::Hashing);
        },
    };
    match store.insert_account(email, hashed.as_str()) {
        Ok(()) => {
            proof {
                lemma_registered_account_logs_in(old(store)@, store@, email@, password@);
            }
            Ok(MessageOnlyResponse { message: "User registered successfully!".to_owned() })
        },
        Err(_) => {
            // Unreachable: the duplicate was already refused above.
            proof {
                assert(false);
            }
            Err(RegisterError::Hashing)
        },
    }
}

/// Login failed. Deliberately one variant: an unknown email and a wrong
/// password are indistinguishable to the client.
#[derive(Debug, PartialEq, Eq, Structural)]
pub enum LoginError {
    InvalidCredentials,
}

/// Log an account in: look the email up, verify the password against the
/// stored hash, and on success issue a token with the given lifetime.
/// Succeeds exactly on valid credentials, and then the token decodes
/// under `key` to `(email, now + ttl_seconds)`.
pub fn login(store: &AccountStore, email: &str, password: &str, key: &[u8], ttl_seconds: u64, now: u64) -> (r: Result<
    LoginResponse,
    LoginError,
>)
    requires
        store.wf(),
        now + ttl_seconds <= u64::MAX,
    ensures
        r is Ok <==> credentials_ok(store@, email@, password@),
        r == Err::<LoginResponse, LoginError>(LoginError::InvalidCredentials)
            <==> !credentials_ok(store@, email@, password@),
        r matches Ok(resp) ==> {
            &&& resp.token matches Some(t) && decoded_of(t@, key@)
                == Some((email@, (now + ttl_seconds) as u64))
            &&& resp.message@ == "User "@ + email@ + " logged in successfully!"@
        },
{
    match store.find_account_by_email(email) {
        None => Err(LoginError::InvalidCredentials),
        Some(account) => {
            if hasher::verify(password, account.password_hash.as_str()) {
                let token = codec::issue(email, ttl_seconds, key, now);
                let mut message = "User ".to_owned();
                message.append(email);
                message.append(" logged in successfully!");
                Ok(LoginResponse { message, token: Some(token) })
            } else {
                Err(LoginError::InvalidCredentials)
            }
        },
    }
}

/// Acknowledge a logout. Tokens are not tracked server-side, so there is
/// nothing to revoke: a stateless no-op by design.
pub fn logout() -> (r: MessageOnlyResponse)
    ensures
        r.message@ == "User logged out successfully!"@,
{
    MessageOnlyResponse { message: "User logged out successfully!".to_owned() }
}

/// The one table that maps a registration failure to its user-visible
/// status and message.
pub fn register_error_response(e: &RegisterError) -> (r: (u16, MessageOnlyResponse))
    ensures
        e is InvalidEmail ==> r.0 == 400 && r.1.message@ == "Invalid email address!"@,
        e is Conflict ==> r.0 == 409 && r.1.message@ == "User with this email already exists!"@,
        e is Hashing ==> r.0 == 500 && r.1.message@ == "Failed to hash password!"@,
{
    match e {
        RegisterError::InvalidEmail => (
            400,
            MessageOnlyResponse { message: "Invalid email address!".to_owned() },
        ),
        RegisterError::Conflict => (
            409,
            MessageOnlyResponse { message: "User with this email already exists!".to_owned() },
        ),
        RegisterError::Hashing => (
            500,
            MessageOnlyResponse { message: "Failed to hash password!".to_owned() },
        ),
    }
}

/// The one table that maps a login failure to its user-visible status
/// and response. Both credential failures land on the same variant, so
/// an unknown email and a wrong password produce byte-identical
/// responses.
pub fn login_error_response(e: &LoginError) -> (r: (u16, LoginResponse))
    ensures
        r.0 == 401,
        r.1.token is None,
        r.1.message@ == "Invalid email or password!"@,
{
    match e {
        LoginError::InvalidCredentials => (
            401,
            LoginResponse { message: "Invalid email or password!".to_owned(), token: None },
        ),
    }
}

} // verus!
