//! Values shared with the document core: generations, selections, edit kinds,
//! fingerprints of durable bytes, and observations of the note file on disk.

use vstd::prelude::*;

verus! {

/// Monotonic identity of one canonical document state.
#[derive(Debug, Clone, Copy, PartialEq, Eq, Hash, Structural)]
pub struct Generation(pub u64);

impl Generation {
    /// The generation of a freshly loaded document.
    pub fn initial() -> (g: Generation)
        ensures
            g.0 == 0,
    {
        Generation(0)
    }

    /// The following generation, or `None` once the counter is exhausted.
    pub fn checked_next(self) -> (r: Option<Generation>)
        ensures
            r matches Some(n) ==> n.0 == self.0 + 1,
            r is None <==> self.0 == u64::MAX,
    {
        if self.0 == u64::MAX {
            None
        } else {
            Some(Generation(self.0 + 1))
        }
    }
}

/// A byte offset into UTF-8 document text.
#[derive(Debug, Clone, Copy, PartialEq, Eq, Hash, Structural)]
pub struct TextPosition {
    pub byte: usize,
}

/// A selection from `anchor` to `active`; collapsed when they coincide.
#[derive(Debug, Clone, Copy, PartialEq, Eq, Hash, Structural)]
pub struct Selection {
    pub anchor: TextPosition,
    pub active: TextPosition,
}

impl Selection {
    pub open spec fn spec_new(anchor: usize, active: usize) -> Selection {
        Selection { anchor: TextPosition { byte: anchor }, active: TextPosition { byte: active } }
    }

    pub open spec fn spec_start(self) -> usize {
        if self.anchor.byte <= self.active.byte {
            self.anchor.byte
        } else {
            self.active.byte
        }
    }

    pub open spec fn spec_end(self) -> usize {
        if self.anchor.byte <= self.active.byte {
            self.active.byte
        } else {
            self.anchor.byte
        }
    }

    pub fn new(anchor: usize, active: usize) -> (r: Selection)
        ensures
            r == Selection::spec_new(anchor, active),
    {
        Selection { anchor: TextPosition { byte: anchor }, active: TextPosition { byte: active } }
    }

    pub fn caret(byte: usize) -> (r: Selection)
        ensures
            r == Selection::spec_new(byte, byte),
    {
        Selection::new(byte, byte)
    }

    pub fn is_collapsed(&self) -> (r: bool)
        ensures
            r == (self.anchor.byte == self.active.byte),
    {
        self.anchor.byte == self.active.byte
    }

    pub fn start(&self) -> (r: usize)
        ensures
            r == self.spec_start(),
    {
        if self.anchor.byte <= self.active.byte {
            self.anchor.byte
        } else {
            self.active.byte
        }
    }

    pub fn end(&self) -> (r: usize)
        ensures
            r == self.spec_end(),
    {
        if self.anchor.byte <= self.active.byte {
            self.active.byte
        } else {
            self.anchor.byte
        }
    }
}

/// Why an edit was requested.
#[derive(Debug, Clone, Copy, PartialEq, Eq, Hash, Structural)]
pub enum EditKind {
    Typing,
    ImeCommit,
    Backspace,
    DeleteForward,
    SelectionReplace,
    Paste,
    Cut,
    Replace,
}

/// The line ending a durable note was written with.
#[derive(Debug, Clone, Copy, PartialEq, Eq, Hash, Structural)]
pub enum LineEnding {
    Lf,
    Crlf,
}

/// A fingerprint of durable bytes.
#[derive(Debug, Clone, Copy, PartialEq, Eq, Hash)]
pub struct DiskFingerprint(pub [u8; 32]);

/// Whether two fingerprints carry the same digest.
pub open spec fn same_fingerprint(a: DiskFingerprint, b: DiskFingerprint) -> bool {
    a.0@ == b.0@
}

/// Whether two optional fingerprints are both absent or carry the same digest.
pub open spec fn same_optional_fingerprint(a: Option<DiskFingerprint>, b: Option<DiskFingerprint>) -> bool {
    match (a, b) {
        (Some(x), Some(y)) => same_fingerprint(x, y),
        (None, None) => true,
        _ => false,
    }
}

impl DiskFingerprint {
    /// Compares the two digests byte by byte.
    pub fn same_as(&self, other: &DiskFingerprint) -> (r: bool)
        ensures
            r == same_fingerprint(*self, *other),
    {
        let mut i: usize = 0;
        while i < 32
            invariant
                0 <= i <= 32,
                forall|j: int| 0 <= j < i ==> self.0@[j] == other.0@[j],
            decreases 32 - i,
        {
            if self.0[i] != other.0[i] {
                return false;
            }
            i += 1;
        }
        assert(self.0@ =~= other.0@);
        true
    }
}

/// Compares two optional fingerprints.
pub fn same_optional(a: &Option<DiskFingerprint>, b: &Option<DiskFingerprint>) -> (r: bool)
    ensures
        r == same_optional_fingerprint(*a, *b),
{
    match (a, b) {
        (Some(x), Some(y)) => x.same_as(y),
        (None, None) => true,
        _ => false,
    }
}

/// A valid UTF-8 note as it was read from disk.
#[derive(Debug, Clone, PartialEq, Eq)]
pub struct ExternalFileFact {
    pub fingerprint: DiskFingerprint,
    pub text: String,
    pub line_ending: LineEnding,
    pub durable_len: usize,
}

/// What one inspection of the note file found.
#[derive(Debug, Clone, PartialEq, Eq)]
pub enum ExternalFileState {
    Present(ExternalFileFact),
    InvalidUtf8 { fingerprint: DiskFingerprint },
    Missing,
    TooLarge { durable_len: u64 },
}

impl ExternalFileState {
    /// The fingerprint of the observed bytes, when they could be hashed.
    pub open spec fn spec_fingerprint(self) -> Option<DiskFingerprint> {
        match self {
            ExternalFileState::Present(fact) => Some(fact.fingerprint),
            ExternalFileState::InvalidUtf8 { fingerprint } => Some(fingerprint),
            _ => None,
        }
    }
}

/// An external change that conflicts with unsaved local edits.
#[derive(Debug, Clone, PartialEq, Eq)]
pub struct FileConflict {
    pub external: ExternalFileState,
    pub detected_at_generation: Generation,
    pub previous_disk_fingerprint: Option<DiskFingerprint>,
}

/// A document decoded from durable bytes.
#[derive(Debug, Clone, PartialEq, Eq)]
pub struct LoadedDocument {
    pub durable_len: usize,
    pub text: String,
    pub line_ending: LineEnding,
    pub fingerprint: DiskFingerprint,
}

impl LoadedDocument {
    /// An equal copy.
    pub fn duplicate(&self) -> (r: LoadedDocument)
        ensures
            r == *self,
    {
        LoadedDocument {
            durable_len: self.durable_len,
            text: self.text.clone(),
            line_ending: self.line_ending,
            fingerprint: self.fingerprint,
        }
    }

    pub open spec fn spec_external_fact(self) -> ExternalFileFact {
        ExternalFileFact {
            fingerprint: self.fingerprint,
            text: self.text,
            line_ending: self.line_ending,
            durable_len: self.durable_len,
        }
    }

    /// The same durable facts, as an observation of the note file.
    pub fn into_external_fact(self) -> (r: ExternalFileFact)
        ensures
            r == self.spec_external_fact(),
    {
        ExternalFileFact {
            fingerprint: self.fingerprint,
            text: self.text,
            line_ending: self.line_ending,
            durable_len: self.durable_len,
        }
    }
}

/// A temporary recovery copy found at startup, beside the canonical note.
#[derive(Debug, Clone, PartialEq, Eq)]
pub struct RecoveryCandidate {
    pub canonical: Option<LoadedDocument>,
    pub temporary: LoadedDocument,
    pub temporary_is_newer: bool,
}

}
