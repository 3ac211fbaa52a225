//! The core of a small multi-user todo tracker.
//!
//! - [`session`] and [`session_store`]: sessions addressed by an opaque token,
//!   with a lifetime of one day that slides forward while the session is used.
//! - [`auth`]: the account that a request acts for, from its bearer credential
//!   or its session.
//! - [`users`], [`projects`], [`todos`]: the tables of accounts, projects and
//!   todos, and the operations on them.
//! - [`numbering`]: what holds of the numbers that todos carry within their
//!   project, across any run of operations.
//! - [`password`]: password hashing.
//! - [`response`]: the envelopes that every operation answers with.
//! - [`files`]: attachments, which are not offered yet.
//!
//! Each table is a value held in memory with a mathematical view, and each
//! operation states in its contract how it changes that view. An operation
//! has its table to itself for as long as it runs, so a number is read and
//! handed out in one step. The decisions that an operation makes are also
//! offered on their own, as functions of plain values, for a caller that
//! keeps the tables elsewhere.

pub mod auth;
pub mod files;
pub mod numbering;
pub mod password;
pub mod projects;
pub mod response;
pub mod session;
pub mod session_store;
pub mod todos;
pub mod users;
