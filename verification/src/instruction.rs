//! Typed editor and persistence instructions emitted by the interaction shell.

use vstd::prelude::*;

use crate::model::{EditKind, Generation, Selection};

verus! {

/// An editor instruction. Edits name the generation they were computed
/// against, so a stale instruction can be refused by the document core.
#[derive(Debug, Clone, PartialEq, Eq)]
pub enum AppIntent {
    Edit {
        expected_generation: Generation,
        selection: Selection,
        inserted: String,
        kind: EditKind,
        timestamp_ms: u64,
    },
    Undo,
    Redo,
    CopySelection { expected_generation: Generation, selection: Selection },
    CutSelection { expected_generation: Generation, selection: Selection, timestamp_ms: u64 },
    PasteClipboard { expected_generation: Generation, selection: Selection, timestamp_ms: u64 },
    /// Clipboard-only projection effect. It never reads or mutates canonical
    /// document text and is used by read-only Preview selection.
    WriteClipboard { text: String },
}

/// How a literal find compares text.
#[derive(Debug, Clone, Copy, PartialEq, Eq, Structural)]
pub struct LiteralSearchOptions {
    pub case_sensitive: bool,
}

/// Why the shell asked for an immediate save.
#[derive(Debug, Clone, Copy, PartialEq, Eq, Structural)]
pub enum SaveReason {
    Manual,
    FocusLoss,
}

/// Non-editor instructions emitted by the shell. Persistence and lifecycle
/// coordination consume these before any execution-domain request is made.
#[derive(Debug, Clone, Copy, PartialEq, Eq, Structural)]
pub enum PersistenceIntent {
    SaveNow(SaveReason),
    Export,
    ResolvePrimary,
    ResolveSecondary,
    RequestQuit,
}

} // verus!
