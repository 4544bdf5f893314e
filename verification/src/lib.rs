//! Random passwords and alphanumeric tokens, with a four-criterion strength
//! heuristic for passwords.
//!
//! The crate computes on plain values only: a caller collects the request,
//! shows the result and stores it where it likes.

pub mod alphabet;
pub mod classes;
pub mod generator;
pub mod input;
mod random;
pub mod record;
pub mod request;
pub mod strength;
