//! Plain record types shared across the service: the registration/login
//! payload and the task records the protected endpoints operate on.

use vstd::prelude::*;

verus! {

/// Registration or login payload: an email and a plaintext password.
/// The plaintext is transient; only its hash is ever stored.
#[derive(Debug)]
pub struct User {
    pub id: Option<i32>,
    pub email: String,
    pub password: String,
}

/// A task record as stored and returned by the task endpoints.
#[derive(Debug)]
pub struct Todo {
    pub id: Option<i32>,
    pub title: String,
    pub description: String,
    pub completed: bool,
    pub user_id: i32,
}

/// A partial task record: a patch in which every absent field keeps
/// the stored value.
#[derive(Debug)]
pub struct OptionalTodo {
    pub id: Option<i32>,
    pub title: Option<String>,
    pub description: Option<String>,
    pub completed: Option<bool>,
    pub user_id: Option<i32>,
}

} // verus!
