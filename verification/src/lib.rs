//! An interactive messaging client core: a verified login state machine
//! (phone number, login code, optional password second factor) that yields a
//! persistable session, and a bounded retriever for the most recent messages
//! of one well-known conversation.
//!
//! All remote calls, prompting and file I/O live outside this crate; the
//! driver performs each requested action and feeds the outcome back as an
//! event.

pub mod auth;
pub mod retrieve;
pub mod text;

use vstd::prelude::*;

verus! {

/// Identity of the official broadcast account whose messages are retrieved.
pub const OFFICIAL_ACCOUNT_ID: i64 = 777000;

/// Upper bound on how many messages one run retrieves.
pub const MESSAGE_CAP: usize = 10;

} // verus!
