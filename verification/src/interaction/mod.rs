//! Non-authoritative editor and find/replace interaction sessions.

pub mod search;
pub mod session;
