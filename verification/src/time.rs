//! The wall clock. Read once at a request's edge and passed into the
//! token codec and the guard as a plain value, so their results are pure
//! functions of it.

use vstd::prelude::*;

verus! {

/// Relies on std::time::SystemTime::now and duration_since: seconds since
/// the unix epoch. A clock reading promises nothing two calls share, so
/// no contract constrains it.
#[verifier::external_body]
pub fn get_current_timestamp() -> usize {
    std::time::SystemTime::now()
        .duration_since(std::time::UNIX_EPOCH)
        .unwrap()
        .as_secs() as usize
}

} // verus!
