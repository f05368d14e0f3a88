//! The clipboard capability the shell implements for the editor flow.

use vstd::prelude::*;

verus! {

/// What a paste found on the clipboard. File entries are native paths.
#[derive(Debug, Clone, PartialEq, Eq)]
pub enum ClipboardPaste {
    Files(Vec<String>),
    EncodedImage(Vec<u8>),
    Dib(Vec<u8>),
    Rgba { width: u32, height: u32, bytes: Vec<u8> },
    Text(String),
}

#[derive(Debug, Clone, PartialEq, Eq)]
pub enum ClipboardError {
    Unavailable(String),
}

/// The paste payload that a text read of the clipboard gives: the text itself,
/// nothing when the clipboard holds no text, or the read's error.
pub open spec fn spec_paste_from_text(read: Result<Option<String>, ClipboardError>) -> Result<
    Option<ClipboardPaste>,
    ClipboardError,
> {
    match read {
        Ok(Some(text)) => Ok(Some(ClipboardPaste::Text(text))),
        Ok(None) => Ok(None),
        Err(error) => Err(error),
    }
}

/// Turns the result of a clipboard text read into a paste payload.
pub fn paste_from_text(read: Result<Option<String>, ClipboardError>) -> (r: Result<
    Option<ClipboardPaste>,
    ClipboardError,
>)
    ensures
        r == spec_paste_from_text(read),
{
    match read {
        Ok(Some(text)) => Ok(Some(ClipboardPaste::Text(text))),
        Ok(None) => Ok(None),
        Err(error) => Err(error),
    }
}

/// Clipboard access, implemented by the platform shell.
pub trait ClipboardPort {
    fn read_text(&mut self) -> Result<Option<String>, ClipboardError>;

    fn write_text(&mut self, text: &str) -> Result<(), ClipboardError>;

    /// A paste payload; by default whatever text the clipboard holds: the
    /// result of one text read, passed through `paste_from_text`. Which text
    /// the clipboard holds, and whether reading it fails, is the shell's.
    fn read_paste(&mut self) -> (r: Result<Option<ClipboardPaste>, ClipboardError>)
        default_ensures
            exists|read: Result<Option<String>, ClipboardError>|
                r == spec_paste_from_text(read),
    {
        let read = self.read_text();
        paste_from_text(read)
    }
}

} // verus!
