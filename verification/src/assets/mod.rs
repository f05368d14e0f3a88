//! Local image destinations, the managed-image store's decisions, and the
//! budget and Markdown of one image-paste batch.

pub mod path;
pub mod rollback;
pub mod storage;
pub mod transaction;
