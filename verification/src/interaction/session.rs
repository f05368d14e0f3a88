//! Non-authoritative editor session and IME composition state.

use std::ops::Range;

use vstd::prelude::*;
use vstd::string::StringSliceAdditionalSpecFns;
use vstd::utf8::{encode_utf8, is_char_boundary};

use crate::instruction::AppIntent;
use crate::model::{EditKind, Generation, Selection};
use crate::text::navigation::{
    line_end, line_start, logical_line_end, logical_line_start, next_boundary,
    next_grapheme_boundary, prev_boundary, previous_grapheme_boundary,
};

verus! {

/// Scroll position of the Source pane. The pixel offsets are kept as the bit
/// patterns of the `f32` values the renderer works with.
#[derive(Debug, Clone, Copy, PartialEq, Eq)]
pub struct ScrollState {
    pub line: usize,
    pub vertical_px_bits: u32,
    pub horizontal_px_bits: u32,
}

impl Default for ScrollState {
    fn default() -> (r: ScrollState)
        ensures
            r.line == 0 && r.vertical_px_bits == 0 && r.horizontal_px_bits == 0,
    {
        ScrollState { line: 0, vertical_px_bits: 0, horizontal_px_bits: 0 }
    }
}

/// Where the platform IME stands. While preediting, the composed text is the
/// session's alone; the document only changes on commit.
#[derive(Debug, Clone, PartialEq, Eq)]
pub enum ImeCompositionState {
    Inactive,
    Enabled,
    Preediting { text: String, cursor: Option<Range<usize>>, replacement: Selection },
}

/// An IME event as the platform reports it.
#[derive(Debug, Clone, PartialEq, Eq)]
pub enum ImeSignal {
    Enabled,
    Disabled,
    Preedit { text: String, cursor: Option<Range<usize>> },
    Commit(String),
}

/// What the Source pane draws for an active composition.
#[derive(Debug, Clone, PartialEq, Eq)]
pub struct PreeditVisual {
    pub text: String,
    pub cursor: Option<Range<usize>>,
    pub replacement: Selection,
}

/// Selection, scroll and IME state of the Source editor. The preferred
/// column is the bit pattern of an `f32` pixel offset.
#[derive(Debug, Clone)]
pub struct EditorSession {
    pub selection: Selection,
    pub scroll: ScrollState,
    pub preferred_x: Option<u32>,
    pub ime: ImeCompositionState,
    pub dragging_selection: bool,
    pub caret_visible: bool,
    pub focused: bool,
}

/// The edit instruction built from its parts.
pub open spec fn edit(
    generation: Generation,
    selection: Selection,
    inserted: String,
    kind: EditKind,
    timestamp_ms: u64,
) -> AppIntent {
    AppIntent::Edit { expected_generation: generation, selection, inserted, kind, timestamp_ms }
}

/// `i` is an edit with these parts, its inserted text given by its characters.
pub open spec fn is_edit(
    i: AppIntent,
    generation: Generation,
    selection: Selection,
    inserted: Seq<char>,
    kind: EditKind,
    timestamp_ms: u64,
) -> bool {
    i matches AppIntent::Edit { expected_generation: g, selection: s, inserted: t, kind: k, timestamp_ms: ts }
        && g == generation && s == selection && t@ == inserted && k == kind && ts == timestamp_ms
}

/// `r` is one edit with these parts.
pub open spec fn is_some_edit(
    r: Option<AppIntent>,
    generation: Generation,
    selection: Selection,
    inserted: Seq<char>,
    kind: EditKind,
    timestamp_ms: u64,
) -> bool {
    r matches Some(i) && is_edit(i, generation, selection, inserted, kind, timestamp_ms)
}

/// The preedit cursor kept from `cursor`: an ordered byte range within
/// `text` whose ends are char boundaries, or nothing.
pub open spec fn valid_cursor(text: Seq<char>, cursor: Option<Range<usize>>) -> Option<Range<usize>> {
    match cursor {
        Some(range) => if range.start <= range.end && range.end <= encode_utf8(text).len()
            && is_char_boundary(encode_utf8(text), range.start as int) && is_char_boundary(
            encode_utf8(text),
            range.end as int,
        ) {
            Some(range)
        } else {
            None
        },
        None => None,
    }
}

fn valid_preedit_cursor(text: &String, cursor: Option<Range<usize>>) -> (r: Option<Range<usize>>)
    ensures
        r == valid_cursor(text@, cursor),
{
    match cursor {
        Some(range) => {
            let s = text.as_str();
            let ghost bytes = encode_utf8(text@);
            assert(s.spec_bytes() == bytes);
            let byte_len = s.as_bytes().len();
            let ordered = range.start <= range.end && range.end <= byte_len;
            if !ordered {
                return None;
            }
            let start_ok = s.is_char_boundary(range.start);
            let end_ok = s.is_char_boundary(range.end);
            assert(start_ok == is_char_boundary(bytes, range.start as int));
            assert(end_ok == is_char_boundary(bytes, range.end as int));
            if start_ok && end_ok {
                Some(range)
            } else {
                None
            }
        },
        None => None,
    }
}

fn edit_intent(
    generation: Generation,
    selection: Selection,
    inserted: String,
    kind: EditKind,
    timestamp_ms: u64,
) -> (r: AppIntent)
    ensures
        r == edit(generation, selection, inserted, kind, timestamp_ms),
{
    AppIntent::Edit { expected_generation: generation, selection, inserted, kind, timestamp_ms }
}

impl Default for EditorSession {
    fn default() -> (r: EditorSession)
        ensures
            r.selection == Selection::spec_new(0, 0),
            r.scroll.line == 0 && r.scroll.vertical_px_bits == 0 && r.scroll.horizontal_px_bits
                == 0,
            r.preferred_x is None,
            r.ime is Inactive,
            !r.dragging_selection,
            r.caret_visible,
            !r.focused,
    {
        EditorSession {
            selection: Selection::caret(0),
            scroll: ScrollState::default(),
            preferred_x: None,
            ime: ImeCompositionState::Inactive,
            dragging_selection: false,
            caret_visible: true,
            focused: false,
        }
    }
}

impl EditorSession {
    pub open spec fn composing(self) -> bool {
        self.ime is Preediting
    }

    /// The selection a commit replaces: the one captured when the current
    /// composition began, or the live selection.
    pub open spec fn replacement_target(self) -> Selection {
        match self.ime {
            ImeCompositionState::Preediting { replacement, .. } => replacement,
            _ => self.selection,
        }
    }

    /// The session with its IME state replaced.
    pub open spec fn with_ime(self, ime: ImeCompositionState) -> EditorSession {
        EditorSession { ime, ..self }
    }

    /// One IME event: the next session and the edit it asks for, if any.
    pub open spec fn ime_step(self, signal: ImeSignal, generation: Generation, timestamp_ms: u64) -> (
        EditorSession,
        Option<AppIntent>,
    ) {
        match signal {
            ImeSignal::Enabled => (self.with_ime(ImeCompositionState::Enabled), None),
            ImeSignal::Disabled => (self.with_ime(ImeCompositionState::Inactive), None),
            ImeSignal::Preedit { text, cursor } => if text@.len() == 0 {
                (self.with_ime(ImeCompositionState::Enabled), None)
            } else {
                (
                    self.with_ime(
                        ImeCompositionState::Preediting {
                            text,
                            cursor: valid_cursor(text@, cursor),
                            replacement: self.replacement_target(),
                        },
                    ),
                    None,
                )
            },
            ImeSignal::Commit(text) => (
                self.with_ime(ImeCompositionState::Enabled),
                if text@.len() == 0 {
                    None
                } else {
                    Some(
                        edit(
                            generation,
                            self.replacement_target(),
                            text,
                            EditKind::ImeCommit,
                            timestamp_ms,
                        ),
                    )
                },
            ),
        }
    }

    /// The session after moving the caret to `byte`, extending the selection
    /// from its anchor or collapsing it there.
    pub open spec fn moved_to(self, byte: usize, extend: bool) -> EditorSession {
        EditorSession {
            selection: if extend {
                Selection::spec_new(self.selection.anchor.byte, byte)
            } else {
                Selection::spec_new(byte, byte)
            },
            preferred_x: None,
            caret_visible: true,
            ..self
        }
    }

    /// Where a horizontal step lands: a non-extending step out of a range
    /// selection stops at its near end; otherwise it crosses one grapheme.
    pub open spec fn horizontal_target(self, text: &str, direction: i32, extend: bool) -> usize {
        if !extend && self.selection.anchor.byte != self.selection.active.byte {
            if direction < 0 {
                self.selection.spec_start()
            } else {
                self.selection.spec_end()
            }
        } else if direction < 0 {
            prev_boundary(text, self.selection.active.byte)
        } else {
            next_boundary(text, self.selection.active.byte)
        }
    }

    pub fn is_composing(&self) -> (r: bool)
        ensures
            r == self.composing(),
    {
        match self.ime {
            ImeCompositionState::Preediting { .. } => true,
            _ => false,
        }
    }

    fn replacement(&self) -> (r: Selection)
        ensures
            r == self.replacement_target(),
    {
        match &self.ime {
            ImeCompositionState::Preediting { replacement, .. } => *replacement,
            _ => self.selection,
        }
    }

    /// The composition to draw, while one is active.
    pub fn preedit_visual(&self) -> (r: Option<PreeditVisual>)
        ensures
            match self.ime {
                ImeCompositionState::Preediting { text, cursor, replacement } => r matches Some(
                    v,
                ) && v.text@ == text@ && v.cursor == cursor && v.replacement == replacement,
                _ => r is None,
            },
    {
        match &self.ime {
            ImeCompositionState::Preediting { text, cursor, replacement } => {
                let cursor = match cursor {
                    Some(range) => Some(Range { start: range.start, end: range.end }),
                    None => None,
                };
                Some(PreeditVisual { text: text.clone(), cursor, replacement: *replacement })
            },
            _ => None,
        }
    }

    /// Applies one IME event. Only a non-empty commit asks for an edit, and
    /// it replaces the selection captured when the composition began.
    pub fn handle_ime(&mut self, signal: ImeSignal, generation: Generation, timestamp_ms: u64) -> (r:
        Option<AppIntent>)
        ensures
            (*final(self), r) == old(self).ime_step(signal, generation, timestamp_ms),
    {
        match signal {
            ImeSignal::Enabled => {
                self.ime = ImeCompositionState::Enabled;
                None
            },
            ImeSignal::Disabled => {
                self.ime = ImeCompositionState::Inactive;
                None
            },
            ImeSignal::Preedit { text, cursor } => {
                if text.as_str().is_empty() {
                    self.ime = ImeCompositionState::Enabled;
                    return None;
                }
                let replacement = self.replacement();
                let cursor = valid_preedit_cursor(&text, cursor);
                self.ime = ImeCompositionState::Preediting { text, cursor, replacement };
                None
            },
            ImeSignal::Commit(text) => {
                let replacement = self.replacement();
                self.ime = ImeCompositionState::Enabled;
                if text.as_str().is_empty() {
                    return None;
                }
                Some(edit_intent(generation, replacement, text, EditKind::ImeCommit, timestamp_ms))
            },
        }
    }

    /// Typed text becomes an edit of the selection, except while composing.
    pub fn handle_keyboard_text(&mut self, text: &str, generation: Generation, timestamp_ms: u64) -> (r:
        Option<AppIntent>)
        ensures
            *final(self) == *old(self),
            old(self).composing() || text@.len() == 0 ==> r is None,
            !old(self).composing() && text@.len() > 0 ==> is_some_edit(
                r,
                generation,
                old(self).selection,
                text@,
                EditKind::Typing,
                timestamp_ms,
            ),
    {
        if self.is_composing() || text.is_empty() {
            return None;
        }
        Some(edit_intent(generation, self.selection, text.to_owned(), EditKind::Typing, timestamp_ms))
    }

    /// An edit inserting `text` over the selection.
    pub fn insert(&self, generation: Generation, text: String, kind: EditKind, timestamp_ms: u64) -> (r:
        AppIntent)
        ensures
            r == edit(generation, self.selection, text, kind, timestamp_ms),
    {
        edit_intent(generation, self.selection, text, kind, timestamp_ms)
    }

    /// Backspace: the selection, or the grapheme before a caret, is removed.
    pub fn backspace(&self, text: &str, generation: Generation, timestamp_ms: u64) -> (r: Option<
        AppIntent,
    >)
        ensures
            self.composing() ==> r is None,
            !self.composing() && self.selection.anchor.byte == self.selection.active.byte ==> (if self.selection.active.byte == 0 {
                r is None
            } else {
                is_some_edit(
                    r,
                    generation,
                    Selection::spec_new(
                        prev_boundary(text, self.selection.active.byte),
                        self.selection.active.byte,
                    ),
                    Seq::empty(),
                    EditKind::Backspace,
                    timestamp_ms,
                )
            }),
            !self.composing() && self.selection.anchor.byte != self.selection.active.byte
                ==> is_some_edit(
                r,
                generation,
                self.selection,
                Seq::empty(),
                EditKind::SelectionReplace,
                timestamp_ms,
            ),
    {
        if self.is_composing() {
            return None;
        }
        let collapsed = self.selection.is_collapsed();
        let selection = if collapsed {
            let active = self.selection.active.byte;
            if active == 0 {
                return None;
            }
            Selection::new(previous_grapheme_boundary(text, active), active)
        } else {
            self.selection
        };
        let kind = if collapsed {
            EditKind::Backspace
        } else {
            EditKind::SelectionReplace
        };
        Some(edit_intent(generation, selection, String::new(), kind, timestamp_ms))
    }

    /// Delete: the selection, or the grapheme after a caret, is removed.
    pub fn delete_forward(&self, text: &str, generation: Generation, timestamp_ms: u64) -> (r:
        Option<AppIntent>)
        ensures
            self.composing() ==> r is None,
            !self.composing() && self.selection.anchor.byte == self.selection.active.byte ==> (if next_boundary(text, self.selection.active.byte) == self.selection.active.byte {
                r is None
            } else {
                is_some_edit(
                    r,
                    generation,
                    Selection::spec_new(
                        self.selection.active.byte,
                        next_boundary(text, self.selection.active.byte),
                    ),
                    Seq::empty(),
                    EditKind::DeleteForward,
                    timestamp_ms,
                )
            }),
            !self.composing() && self.selection.anchor.byte != self.selection.active.byte
                ==> is_some_edit(
                r,
                generation,
                self.selection,
                Seq::empty(),
                EditKind::SelectionReplace,
                timestamp_ms,
            ),
    {
        if self.is_composing() {
            return None;
        }
        let collapsed = self.selection.is_collapsed();
        let selection = if collapsed {
            let active = self.selection.active.byte;
            let next = next_grapheme_boundary(text, active);
            if next == active {
                return None;
            }
            Selection::new(active, next)
        } else {
            self.selection
        };
        let kind = if collapsed {
            EditKind::DeleteForward
        } else {
            EditKind::SelectionReplace
        };
        Some(edit_intent(generation, selection, String::new(), kind, timestamp_ms))
    }

    /// Moves the caret one step left (`direction < 0`) or right.
    pub fn move_horizontal(&mut self, text: &str, direction: i32, extend: bool)
        ensures
            old(self).composing() ==> *final(self) == *old(self),
            !old(self).composing() ==> *final(self) == old(self).moved_to(
                old(self).horizontal_target(text, direction, extend),
                extend,
            ),
    {
        if self.is_composing() {
            return ;
        }
        let target = if !extend && !self.selection.is_collapsed() {
            if direction < 0 {
                self.selection.start()
            } else {
                self.selection.end()
            }
        } else if direction < 0 {
            previous_grapheme_boundary(text, self.selection.active.byte)
        } else {
            next_grapheme_boundary(text, self.selection.active.byte)
        };
        self.move_to(target, extend);
    }

    /// Moves the caret to the start or end of its logical line.
    pub fn move_line_boundary(&mut self, text: &str, end: bool, extend: bool)
        ensures
            old(self).composing() ==> *final(self) == *old(self),
            !old(self).composing() ==> *final(self) == old(self).moved_to(
                if end {
                    line_end(text, old(self).selection.active.byte)
                } else {
                    line_start(text, old(self).selection.active.byte)
                },
                extend,
            ),
    {
        if self.is_composing() {
            return ;
        }
        let active = self.selection.active.byte;
        let target = if end {
            logical_line_end(text, active)
        } else {
            logical_line_start(text, active)
        };
        self.move_to(target, extend);
    }

    /// Moves the caret to the start or end of the document.
    pub fn move_document_boundary(&mut self, text_len: usize, end: bool, extend: bool)
        ensures
            old(self).composing() ==> *final(self) == *old(self),
            !old(self).composing() ==> *final(self) == old(self).moved_to(
                if end {
                    text_len
                } else {
                    0
                },
                extend,
            ),
    {
        if !self.is_composing() {
            self.move_to(
                if end {
                    text_len
                } else {
                    0
                },
                extend,
            );
        }
    }

    /// Moves the caret to `byte`, extending the selection or collapsing it.
    pub fn move_to(&mut self, byte: usize, extend: bool)
        ensures
            *final(self) == old(self).moved_to(byte, extend),
    {
        self.selection = if extend {
            Selection::new(self.selection.anchor.byte, byte)
        } else {
            Selection::caret(byte)
        };
        self.preferred_x = None;
        self.caret_visible = true;
    }

    /// Drops the composed text; an enabled IME stays enabled.
    pub fn cancel_preedit(&mut self)
        ensures
            *final(self) == old(self).with_ime(
                if old(self).ime is Inactive {
                    ImeCompositionState::Inactive
                } else {
                    ImeCompositionState::Enabled
                },
            ),
    {
        self.ime = match self.ime {
            ImeCompositionState::Inactive => ImeCompositionState::Inactive,
            _ => ImeCompositionState::Enabled,
        };
    }

    /// Takes the selection the document reports after an edit.
    pub fn accept_document_selection(&mut self, selection: Selection)
        ensures
            *final(self) == (EditorSession {
                selection,
                preferred_x: None,
                caret_visible: true,
                ..*old(self)
            }),
    {
        self.selection = selection;
        self.preferred_x = None;
        self.caret_visible = true;
    }
}

/// A composition that begins in a settled session edits, on a non-empty
/// commit, exactly the selection that was current when it began; the session
/// is composing in between, and no longer once the commit is applied. Later
/// preedits of the same composition keep that target.
pub proof fn lemma_commit_replaces_selection_at_composition_start(
    s: EditorSession,
    first: String,
    first_cursor: Option<Range<usize>>,
    later: String,
    later_cursor: Option<Range<usize>>,
    committed: String,
    generation: Generation,
    t1: u64,
    t2: u64,
    t3: u64,
)
    requires
        !s.composing(),
        first@.len() > 0,
        later@.len() > 0,
        committed@.len() > 0,
    ensures
        ({
            let (s1, r1) = s.ime_step(
                ImeSignal::Preedit { text: first, cursor: first_cursor },
                generation,
                t1,
            );
            let (s2, r2) = s1.ime_step(
                ImeSignal::Preedit { text: later, cursor: later_cursor },
                generation,
                t2,
            );
            let (s3, r3) = s2.ime_step(ImeSignal::Commit(committed), generation, t3);
            &&& r1 is None && r2 is None
            &&& s1.composing() && s2.composing() && !s3.composing()
            &&& s1.selection == s.selection && s2.selection == s.selection
            &&& r3 == Some(
                edit(generation, s.selection, committed, EditKind::ImeCommit, t3),
            )
        }),
{
}


/// A step without Shift out of a range selection collapses it to the caret at
/// its far end in the step's direction: rightward at the larger of anchor and
/// active, leftward at the smaller.
pub proof fn lemma_plain_step_collapses_range(s: EditorSession, text: &str, direction: i32)
    requires
        s.selection.anchor.byte != s.selection.active.byte,
    ensures
        ({
            let hi = if s.selection.anchor.byte > s.selection.active.byte {
                s.selection.anchor.byte
            } else {
                s.selection.active.byte
            };
            let lo = if s.selection.anchor.byte < s.selection.active.byte {
                s.selection.anchor.byte
            } else {
                s.selection.active.byte
            };
            let target = if direction < 0 {
                lo
            } else {
                hi
            };
            &&& s.horizontal_target(text, direction, false) == target
            &&& s.moved_to(s.horizontal_target(text, direction, false), false).selection
                == Selection::spec_new(target, target)
        }),
{
}

} // verus!
