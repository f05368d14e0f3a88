//! Flow coordination for persistence, external changes, recovery, preview
//! scheduling and preferences, independent of windows, files and UI types.

pub mod clipboard;
pub mod completion;
pub mod persistence;
pub mod preview;
pub mod reconciliation;
pub mod recovery;
pub mod save;
