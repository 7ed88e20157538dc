//! Auth guard: the single enforcement point in front of every protected
//! task operation. A pure function of (authorization header, signing key,
//! current time): it extracts a bearer token, delegates to the token
//! codec, and yields an authenticated identity or a rejection. The three
//! codec sub-reasons are collapsed into one `Invalid` rejection so a
//! response never leaks why a token failed.

use vstd::prelude::*;
use crate::codec;
use crate::codec::{token_accepts, token_subject, token_expiry};
use crate::responses::Claims;

verus! {

/// Why the guard rejected a request. Both variants surface as status 401
/// with a generic message.
#[derive(Debug, PartialEq, Eq, Structural)]
pub enum AuthError {
    /// The request carries no authorization header.
    Missing,
    /// The header's token failed verification, for whatever reason.
    Invalid,
}

/// The authenticated identity attached to one request: the verified
/// claims of the presented token. Owned by the request; never cached.
#[derive(Debug)]
pub struct AuthGuard {
    pub claims: Claims,
}

/// The literal prefix `"Bearer "`.
pub open spec fn bearer_prefix() -> Seq<char> {
    seq!['B', 'e', 'a', 'r', 'e', 'r', ' ']
}

/// The token inside a header value: the value with one leading
/// `"Bearer "` stripped (case-sensitive); if the prefix is absent the
/// whole value is the token.
pub open spec fn strip_bearer(h: Seq<char>) -> Seq<char> {
    if h.len() >= 7 && h.subrange(0, 7) == bearer_prefix() {
        h.subrange(7, h.len() as int)
    } else {
        h
    }
}

/// The guard admits the request: a header is present and its token is
/// authentic under `key` and unexpired at `now`.
pub open spec fn guard_admits(header: Option<Seq<char>>, key: Seq<u8>, now: u64) -> bool {
    header matches Some(h) && token_accepts(strip_bearer(h), key, now)
}

/// The identity an admitted request carries.
pub open spec fn guard_subject(header: Option<Seq<char>>, key: Seq<u8>) -> Seq<char>
    recommends
        header is Some,
{
    token_subject(strip_bearer(header->0), key)
}

/// Strip one leading `"Bearer "` from a header value.
fn strip_bearer_exec(h: &str) -> (t: &str)
    ensures
        t@ == strip_bearer(h@),
{
    let n = h.unicode_len();
    if n >= 7
        && h.get_char(0) == 'B'
        && h.get_char(1) == 'e'
        && h.get_char(2) == 'a'
        && h.get_char(3) == 'r'
        && h.get_char(4) == 'e'
        && h.get_char(5) == 'r'
        && h.get_char(6) == ' '
    {
        proof {
            assert(h@.subrange(0, 7) =~= bearer_prefix());
        }
        h.substring_char(7, n)
    } else {
        proof {
            if h@.len() >= 7 && h@.subrange(0, 7) == bearer_prefix() {
                assert(forall|i: int| 0 <= i < 7 ==> h@[i] == #[trigger] bearer_prefix()[i]) by {
                    assert(forall|i: int| 0 <= i < 7 ==> #[trigger] bearer_prefix()[i] == h@.subrange(0, 7)[i]);
                }
                assert(false);
            }
        }
        h
    }
}

impl AuthGuard {
    /// Convert a request's authorization header into an authenticated
    /// identity or a rejection, before any protected handler runs.
    /// No header rejects with `Missing`; a header whose token fails
    /// verification for any reason rejects with `Invalid`; an admitted
    /// request yields exactly the token's verified claims.
    pub fn from_request(header: Option<&str>, key: &[u8], now: u64) -> (r: Result<AuthGuard, AuthError>)
        ensures
            header is None ==> r == Err::<AuthGuard, AuthError>(AuthError::Missing),
            header matches Some(h) ==> {
                &&& (r is Ok <==> guard_admits(Some(h@), key@, now))
                &&& (r matches Ok(g) ==> g.claims.sub@ == guard_subject(Some(h@), key@)
                      && g.claims.exp == token_expiry(strip_bearer(h@), key@)
                      && g.claims.exp > now)
                &&& (r is Err ==> r == Err::<AuthGuard, AuthError>(AuthError::Invalid))
            },
    {
        match header {
            None => Err(AuthError::Missing),
            Some(h) => {
                let token = strip_bearer_exec(h);
                match codec::verify(token, key, now) {
                    Ok(claims) => Ok(AuthGuard { claims }),
                    Err(_) => Err(AuthError::Invalid),
                }
            },
        }
    }
}

/// Every guard rejection is surfaced with the same status, 401, whichever
/// variant it is: the sub-reason stays server-side.
pub fn auth_error_status(e: &AuthError) -> (s: u16)
    ensures
        s == 401,
{
    match e {
        AuthError::Missing => 401,
        AuthError::Invalid => 401,
    }
}

/// A request with no authorization header is rejected, whatever the key
/// and the time.
pub proof fn lemma_guard_rejects_missing_header(key: Seq<u8>, now: u64)
    ensures
        !guard_admits(None, key, now),
{
}

/// A request whose header is `"Bearer "` followed by a token that is
/// authentic under the guard's key and unexpired is admitted, and the
/// identity it yields is the token's subject.
pub proof fn lemma_guard_admits_bearer(h: Seq<char>, t: Seq<char>, key: Seq<u8>, sub: Seq<char>, exp: u64, now: u64)
    requires
        h == bearer_prefix() + t,
        codec::decoded_of(t, key) == Some((sub, exp)),
        now < exp,
    ensures
        guard_admits(Some(h), key, now),
        guard_subject(Some(h), key) == sub,
{
    assert(h.subrange(0, 7) =~= bearer_prefix());
    assert(strip_bearer(h) =~= t);
}

} // verus!
