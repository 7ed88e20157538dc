//! Authentication core of a small multi-user task-tracking service:
//! password hashing, signed expiring tokens, a request guard that admits
//! only bearers of a valid token, and the account registration/login flow.

pub mod accounts;
pub mod codec;
pub mod common;
pub mod environment;
pub mod guards;
pub mod hasher;
pub mod responses;
pub mod strutil;
pub mod time;
pub mod todos;
pub mod validators;
