//! Runtime configuration values, their validation, and the single owner that
//! serializes durable configuration writes.

pub mod coordinator;
pub mod preferences;
pub mod runtime;
pub mod storage;
