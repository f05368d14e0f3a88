//! Non-authoritative Source find/replace interaction session. The literal
//! matching itself is done by the shell's source search; the session keeps
//! its result, the active match, and the two editable fields.

use std::ops::Range;

use vstd::prelude::*;
use vstd::string::{StringExecFns, StringSliceAdditionalSpecFns};
use vstd::utf8::{encode_utf8, encode_utf8_valid_utf8, is_char_boundary, is_char_boundary_start_end_of_seq};

use crate::instruction::LiteralSearchOptions;
use crate::model::{Generation, Selection};
use crate::text::navigation::{
    is_floor_boundary, next_boundary_of, next_grapheme_boundary, prev_boundary_of,
    previous_grapheme_boundary,
};
use crate::text::splice::{lemma_splice_boundary, splice};

verus! {

#[derive(Debug, Clone, Copy, PartialEq, Eq, Structural)]
pub enum SearchField {
    Query,
    Replacement,
}

/// One literal match, as a byte range of the document.
#[derive(Debug, Clone, Copy, PartialEq, Eq, Structural)]
pub struct LiteralMatch {
    pub start: usize,
    pub end: usize,
}

impl LiteralMatch {
    pub fn range(self) -> (r: Range<usize>)
        ensures
            r.start == self.start && r.end == self.end,
    {
        Range { start: self.start, end: self.end }
    }
}

/// What one literal search of the document found.
#[derive(Debug, Clone, PartialEq, Eq)]
pub struct LiteralSearchResult {
    pub ranges: Vec<LiteralMatch>,
    pub truncated: bool,
}

/// The session's state, its text fields by their characters.
pub struct SearchView {
    pub open: bool,
    pub replace_visible: bool,
    pub focused: SearchField,
    pub query: Seq<char>,
    pub replacement: Seq<char>,
    pub case_sensitive: bool,
    pub preedit: Seq<char>,
    pub generation: Option<Generation>,
    pub matches: Seq<LiteralMatch>,
    pub active: Option<usize>,
    pub query_cursor: usize,
    pub replacement_cursor: usize,
    pub truncated: bool,
}

/// `cursor` is a char boundary of `text`.
pub open spec fn cursor_ok(text: Seq<char>, cursor: usize) -> bool {
    cursor <= encode_utf8(text).len() && is_char_boundary(encode_utf8(text), cursor as int)
}

/// Whether `c` is a control character (general category `Cc`).
pub open spec fn is_control(c: char) -> bool {
    c <= '\u{1f}' || ('\u{7f}' <= c <= '\u{9f}')
}

pub open spec fn has_control(s: Seq<char>) -> bool {
    exists|i: int| 0 <= i < s.len() && is_control(#[trigger] s[i])
}

pub open spec fn has_line_break(s: Seq<char>) -> bool {
    exists|i: int| 0 <= i < s.len() && (#[trigger] s[i] == '\r' || s[i] == '\n')
}

impl SearchView {
    pub open spec fn wf(self) -> bool {
        &&& cursor_ok(self.query, self.query_cursor)
        &&& cursor_ok(self.replacement, self.replacement_cursor)
        &&& self.active matches Some(a) ==> a < self.matches.len()
    }

    pub open spec fn focused_value(self) -> Seq<char> {
        match self.focused {
            SearchField::Query => self.query,
            SearchField::Replacement => self.replacement,
        }
    }

    pub open spec fn focused_cursor(self) -> usize {
        match self.focused {
            SearchField::Query => self.query_cursor,
            SearchField::Replacement => self.replacement_cursor,
        }
    }

    /// `after` is `self` with the focused field's bytes from `start` to
    /// `end` replaced by `inserted` and its cursor at `cursor`; nothing
    /// else differs.
    pub open spec fn edited(
        self,
        after: SearchView,
        start: int,
        end: int,
        inserted: Seq<u8>,
        cursor: usize,
    ) -> bool {
        let bytes = encode_utf8(self.focused_value());
        &&& encode_utf8(after.focused_value()) == bytes.subrange(0, start) + inserted
            + bytes.subrange(end, bytes.len() as int)
        &&& after.focused_cursor() == cursor
        &&& after == (match self.focused {
            SearchField::Query => SearchView {
                query: after.query,
                query_cursor: after.query_cursor,
                ..self
            },
            SearchField::Replacement => SearchView {
                replacement: after.replacement,
                replacement_cursor: after.replacement_cursor,
                ..self
            },
        })
    }

    /// The active match after a new search result.
    pub open spec fn refreshed_active(self, found: nat) -> Option<usize> {
        if found == 0 {
            None
        } else {
            match self.active {
                Some(a) => Some(if a < found - 1 {
                    a
                } else {
                    (found - 1) as usize
                }),
                None => Some(0),
            }
        }
    }

    /// The match `next` moves to: forwards with wrap-around, or backwards
    /// from the last match when nothing or the first match is active.
    pub open spec fn stepped_active(self, reverse: bool) -> usize {
        let n = self.matches.len();
        match self.active {
            Some(a) => if reverse {
                if a == 0 {
                    (n - 1) as usize
                } else {
                    (a - 1) as usize
                }
            } else {
                ((a + 1) % (n as int)) as usize
            },
            None => if reverse {
                (n - 1) as usize
            } else {
                0
            },
        }
    }
}

/// The find/replace session over the Source pane.
#[derive(Debug, Clone)]
pub struct SearchSession {
    pub open: bool,
    pub replace_visible: bool,
    pub focused: SearchField,
    pub query: String,
    pub replacement: String,
    pub case_sensitive: bool,
    pub preedit: String,
    generation: Option<Generation>,
    matches: Vec<LiteralMatch>,
    active: Option<usize>,
    query_cursor: usize,
    replacement_cursor: usize,
    truncated: bool,
}

impl View for SearchSession {
    type V = SearchView;

    closed spec fn view(&self) -> SearchView {
        SearchView {
            open: self.open,
            replace_visible: self.replace_visible,
            focused: self.focused,
            query: self.query@,
            replacement: self.replacement@,
            case_sensitive: self.case_sensitive,
            preedit: self.preedit@,
            generation: self.generation,
            matches: self.matches@,
            active: self.active,
            query_cursor: self.query_cursor,
            replacement_cursor: self.replacement_cursor,
            truncated: self.truncated,
        }
    }
}

impl Default for SearchSession {
    fn default() -> (r: SearchSession)
        ensures
            r@.wf(),
            !r@.open && !r@.replace_visible && r@.focused == SearchField::Query,
            r@.query.len() == 0 && r@.replacement.len() == 0 && r@.preedit.len() == 0,
            !r@.case_sensitive && r@.generation is None && r@.matches.len() == 0,
            r@.active is None && r@.query_cursor == 0 && r@.replacement_cursor == 0,
            !r@.truncated,
    {
        let s = SearchSession {
            open: false,
            replace_visible: false,
            focused: SearchField::Query,
            query: String::new(),
            replacement: String::new(),
            case_sensitive: false,
            preedit: String::new(),
            generation: None,
            matches: Vec::new(),
            active: None,
            query_cursor: 0,
            replacement_cursor: 0,
            truncated: false,
        };
        proof {
            is_char_boundary_start_end_of_seq(encode_utf8(Seq::<char>::empty()));
        }
        s
    }
}

fn contains_line_break(value: &str) -> (r: bool)
    ensures
        r == has_line_break(value@),
{
    let mut found = false;
    for c in it: value.chars()
        invariant
            it.seq() == value@,
            found == exists|k: int| 0 <= k < it.index() && (#[trigger] value@[k] == '\r' || value@[k] == '\n'),
    {
        if c == '\r' || c == '\n' {
            found = true;
        }
    }
    found
}

fn contains_control(value: &str) -> (r: bool)
    ensures
        r == has_control(value@),
{
    let mut found = false;
    for c in it: value.chars()
        invariant
            it.seq() == value@,
            found == exists|k: int| 0 <= k < it.index() && is_control(#[trigger] value@[k]),
    {
        if c <= '\u{1f}' || ('\u{7f}' <= c && c <= '\u{9f}') {
            found = true;
        }
    }
    found
}

impl SearchSession {
    /// The session is well formed: each cursor sits on a char boundary of
    /// its field and the active match exists.
    pub open spec fn wf(&self) -> bool {
        self@.wf()
    }

    /// Opens the session, focused on the query. A selection without line
    /// breaks becomes the query, with the cursor at its end. The caller
    /// searches for the query next and hands the result to `refresh`.
    pub fn open(&mut self, replace: bool, selected: Option<&str>)
        requires
            old(self).wf(),
        ensures
            final(self).wf(),
            match selected {
                Some(s) if !has_line_break(s@) => final(self)@ == (SearchView {
                    open: true,
                    replace_visible: replace,
                    focused: SearchField::Query,
                    query: s@,
                    query_cursor: s.spec_bytes().len() as usize,
                    ..old(self)@
                }),
                _ => final(self)@ == (SearchView {
                    open: true,
                    replace_visible: replace,
                    focused: SearchField::Query,
                    ..old(self)@
                }),
            },
    {
        self.open = true;
        self.replace_visible = replace;
        self.focused = SearchField::Query;
        if let Some(s) = selected {
            if !contains_line_break(s) {
                self.query = String::from_str(s);
                self.query_cursor = s.as_bytes().len();
                proof {
                    encode_utf8_valid_utf8(s@);
                    is_char_boundary_start_end_of_seq(encode_utf8(s@));
                }
            }
        }
    }

    /// Closes the session and drops any preedit and the active match.
    pub fn close(&mut self)
        requires
            old(self).wf(),
        ensures
            final(self).wf(),
            final(self)@ == (SearchView {
                open: false,
                active: None,
                preedit: Seq::empty(),
                ..old(self)@
            }),
    {
        self.open = false;
        self.active = None;
        self.preedit = String::new();
    }

    pub fn options(&self) -> (r: LiteralSearchOptions)
        ensures
            r.case_sensitive == self@.case_sensitive,
    {
        LiteralSearchOptions { case_sensitive: self.case_sensitive }
    }

    /// Takes a search result for `generation`. The active match is kept
    /// (clamped to the new matches), starts at the first, or is cleared when
    /// nothing matched.
    pub fn refresh(&mut self, result: LiteralSearchResult, generation: Generation)
        requires
            old(self).wf(),
        ensures
            final(self).wf(),
            final(self)@ == (SearchView {
                generation: Some(generation),
                matches: result.ranges@,
                truncated: result.truncated,
                active: old(self)@.refreshed_active(result.ranges@.len()),
                ..old(self)@
            }),
    {
        let found = result.ranges.len();
        self.generation = Some(generation);
        self.matches = result.ranges;
        self.truncated = result.truncated;
        self.active = if found == 0 {
            None
        } else {
            match self.active {
                Some(a) => Some(if a < found - 1 {
                    a
                } else {
                    found - 1
                }),
                None => Some(0),
            }
        };
    }

    /// Whether the matches were found in `generation` of the document.
    pub fn is_current(&self, generation: Generation) -> (r: bool)
        ensures
            r == (self@.generation == Some(generation)),
    {
        match self.generation {
            Some(g) => g.0 == generation.0,
            None => false,
        }
    }

    /// The byte range of the active match.
    pub fn active_range(&self) -> (r: Option<Range<usize>>)
        requires
            self.wf(),
        ensures
            match self@.active {
                Some(a) => r matches Some(range) && range.start == self@.matches[a as int].start
                    && range.end == self@.matches[a as int].end,
                None => r is None,
            },
    {
        match self.active {
            Some(a) => Some(self.matches[a].range()),
            None => None,
        }
    }

    /// The active match counted from one (0 without one), the number of
    /// matches, and whether the search stopped early.
    pub fn match_summary(&self) -> (r: (usize, usize, bool))
        requires
            self.wf(),
        ensures
            r.0 == (match self@.active {
                Some(a) => a + 1,
                None => 0,
            }),
            r.1 == self@.matches.len(),
            r.2 == self@.truncated,
    {
        let n = self.matches.len();
        let position = match self.active {
            Some(a) => a + 1,
            None => 0,
        };
        (position, n, self.truncated)
    }

    /// Moves to the next (or previous) match, wrapping around, and returns
    /// its selection; without matches there is none.
    pub fn next(&mut self, reverse: bool) -> (r: Option<Selection>)
        requires
            old(self).wf(),
        ensures
            final(self).wf(),
            old(self)@.matches.len() == 0 ==> r is None && final(self)@ == (SearchView {
                active: None,
                ..old(self)@
            }),
            old(self)@.matches.len() > 0 ==> ({
                let i = old(self)@.stepped_active(reverse);
                &&& final(self)@ == (SearchView { active: Some(i), ..old(self)@ })
                &&& r == Some(
                    Selection::spec_new(
                        old(self)@.matches[i as int].start,
                        old(self)@.matches[i as int].end,
                    ),
                )
            }),
    {
        let n = self.matches.len();
        if n == 0 {
            self.active = None;
            return None;
        }
        let next = match self.active {
            Some(a) => if reverse {
                if a == 0 {
                    n - 1
                } else {
                    a - 1
                }
            } else {
                (a + 1) % n
            },
            None => if reverse {
                n - 1
            } else {
                0
            },
        };
        self.active = Some(next);
        let found = self.matches[next];
        Some(Selection::new(found.start, found.end))
    }

    /// Flips case sensitivity; the caller searches again and refreshes.
    pub fn toggle_case(&mut self)
        requires
            old(self).wf(),
        ensures
            final(self).wf(),
            final(self)@ == (SearchView {
                case_sensitive: !old(self)@.case_sensitive,
                ..old(self)@
            }),
    {
        self.case_sensitive = !self.case_sensitive;
    }

    /// Moves focus between the query and the visible replacement field.
    pub fn focus_next(&mut self)
        requires
            old(self).wf(),
        ensures
            final(self).wf(),
            !old(self)@.replace_visible ==> final(self)@ == old(self)@,
            old(self)@.replace_visible ==> final(self)@ == (SearchView {
                focused: match old(self)@.focused {
                    SearchField::Query => SearchField::Replacement,
                    SearchField::Replacement => SearchField::Query,
                },
                ..old(self)@
            }),
    {
        if self.replace_visible {
            self.focused = match self.focused {
                SearchField::Query => SearchField::Replacement,
                SearchField::Replacement => SearchField::Query,
            };
        }
    }

    pub fn set_preedit(&mut self, text: String)
        requires
            old(self).wf(),
        ensures
            final(self).wf(),
            final(self)@ == (SearchView { preedit: text@, ..old(self)@ }),
    {
        self.preedit = text;
    }

    pub fn is_composing(&self) -> (r: bool)
        ensures
            r == (self@.preedit.len() > 0),
    {
        !self.preedit.as_str().is_empty()
    }

    /// Inserts typed text at the focused field's cursor, unless it holds a
    /// control character. Returns whether the query changed, so that the
    /// caller searches again.
    pub fn insert(&mut self, inserted: &str) -> (query_changed: bool)
        requires
            old(self).wf(),
        ensures
            final(self).wf(),
            has_control(inserted@) ==> final(self)@ == old(self)@ && !query_changed,
            !has_control(inserted@) ==> old(self)@.edited(
                final(self)@,
                old(self)@.focused_cursor() as int,
                old(self)@.focused_cursor() as int,
                inserted.spec_bytes(),
                (old(self)@.focused_cursor() + inserted.spec_bytes().len()) as usize,
            ) && query_changed == (old(self)@.focused == SearchField::Query),
    {
        if contains_control(inserted) {
            return false;
        }
        proof {
            encode_utf8_valid_utf8(inserted@);
            encode_utf8_valid_utf8(self.query@);
            encode_utf8_valid_utf8(self.replacement@);
        }
        match self.focused {
            SearchField::Query => {
                let cursor = self.query_cursor;
                let updated = splice(self.query.as_str(), cursor, cursor, inserted);
                let total = updated.as_str().as_bytes().len();
                proof {
                    lemma_splice_boundary(
                        encode_utf8(self.query@),
                        cursor as int,
                        cursor as int,
                        inserted.spec_bytes(),
                    );
                }
                self.query = updated;
                self.query_cursor = cursor + inserted.as_bytes().len();
                true
            },
            SearchField::Replacement => {
                let cursor = self.replacement_cursor;
                let updated = splice(self.replacement.as_str(), cursor, cursor, inserted);
                let total = updated.as_str().as_bytes().len();
                proof {
                    lemma_splice_boundary(
                        encode_utf8(self.replacement@),
                        cursor as int,
                        cursor as int,
                        inserted.spec_bytes(),
                    );
                }
                self.replacement = updated;
                self.replacement_cursor = cursor + inserted.as_bytes().len();
                false
            },
        }
    }

    /// Commits composed text: the preedit is dropped and the text inserted.
    pub fn commit_preedit(&mut self, text: &str) -> (query_changed: bool)
        requires
            old(self).wf(),
        ensures
            final(self).wf(),
            ({
                let cleared = SearchView { preedit: Seq::empty(), ..old(self)@ };
                &&& has_control(text@) ==> final(self)@ == cleared && !query_changed
                &&& !has_control(text@) ==> cleared.edited(
                    final(self)@,
                    cleared.focused_cursor() as int,
                    cleared.focused_cursor() as int,
                    text.spec_bytes(),
                    (cleared.focused_cursor() + text.spec_bytes().len()) as usize,
                ) && query_changed == (cleared.focused == SearchField::Query)
            }),
    {
        self.preedit = String::new();
        self.insert(text)
    }

    /// Removes the grapheme before the focused field's cursor. Returns
    /// whether the query changed.
    pub fn backspace(&mut self) -> (query_changed: bool)
        requires
            old(self).wf(),
        ensures
            final(self).wf(),
            ({
                let v = old(self)@;
                let previous = prev_boundary_of(v.focused_value(), v.focused_cursor());
                v.edited(final(self)@, previous as int, v.focused_cursor() as int, Seq::empty(), previous)
            }),
            query_changed == (old(self)@.focused == SearchField::Query),
    {
        proof {
            encode_utf8_valid_utf8(self.query@);
            encode_utf8_valid_utf8(self.replacement@);
            is_char_boundary_start_end_of_seq(encode_utf8(self.query@));
            is_char_boundary_start_end_of_seq(encode_utf8(self.replacement@));
        }
        match self.focused {
            SearchField::Query => {
                let cursor = self.query_cursor;
                let previous = previous_grapheme_boundary(self.query.as_str(), cursor);
                proof {
                    lemma_splice_boundary(
                        encode_utf8(self.query@),
                        previous as int,
                        cursor as int,
                        Seq::empty(),
                    );
                    assert(encode_utf8(Seq::<char>::empty()) =~= Seq::<u8>::empty());
                    reveal_strlit("");
                }
                self.query = splice(self.query.as_str(), previous, cursor, "");
                self.query_cursor = previous;
                true
            },
            SearchField::Replacement => {
                let cursor = self.replacement_cursor;
                let previous = previous_grapheme_boundary(self.replacement.as_str(), cursor);
                proof {
                    lemma_splice_boundary(
                        encode_utf8(self.replacement@),
                        previous as int,
                        cursor as int,
                        Seq::empty(),
                    );
                    assert(encode_utf8(Seq::<char>::empty()) =~= Seq::<u8>::empty());
                    reveal_strlit("");
                }
                self.replacement = splice(self.replacement.as_str(), previous, cursor, "");
                self.replacement_cursor = previous;
                false
            },
        }
    }

    /// Removes the grapheme after the focused field's cursor. Returns
    /// whether the query changed.
    pub fn delete(&mut self) -> (query_changed: bool)
        requires
            old(self).wf(),
        ensures
            final(self).wf(),
            ({
                let v = old(self)@;
                let next = next_boundary_of(v.focused_value(), v.focused_cursor());
                v.edited(final(self)@, v.focused_cursor() as int, next as int, Seq::empty(), v.focused_cursor())
            }),
            query_changed == (old(self)@.focused == SearchField::Query),
    {
        proof {
            encode_utf8_valid_utf8(self.query@);
            encode_utf8_valid_utf8(self.replacement@);
            is_char_boundary_start_end_of_seq(encode_utf8(self.query@));
            is_char_boundary_start_end_of_seq(encode_utf8(self.replacement@));
        }
        match self.focused {
            SearchField::Query => {
                let cursor = self.query_cursor;
                let next = next_grapheme_boundary(self.query.as_str(), cursor);
                proof {
                    lemma_splice_boundary(
                        encode_utf8(self.query@),
                        cursor as int,
                        next as int,
                        Seq::empty(),
                    );
                    assert(encode_utf8(Seq::<char>::empty()) =~= Seq::<u8>::empty());
                    reveal_strlit("");
                }
                self.query = splice(self.query.as_str(), cursor, next, "");
                true
            },
            SearchField::Replacement => {
                let cursor = self.replacement_cursor;
                let next = next_grapheme_boundary(self.replacement.as_str(), cursor);
                proof {
                    lemma_splice_boundary(
                        encode_utf8(self.replacement@),
                        cursor as int,
                        next as int,
                        Seq::empty(),
                    );
                    assert(encode_utf8(Seq::<char>::empty()) =~= Seq::<u8>::empty());
                    reveal_strlit("");
                }
                self.replacement = splice(self.replacement.as_str(), cursor, next, "");
                false
            },
        }
    }

    /// Moves the focused field's cursor over one grapheme.
    pub fn move_cursor(&mut self, right: bool)
        requires
            old(self).wf(),
        ensures
            final(self).wf(),
            ({
                let v = old(self)@;
                let target = if right {
                    next_boundary_of(v.focused_value(), v.focused_cursor())
                } else {
                    prev_boundary_of(v.focused_value(), v.focused_cursor())
                };
                v.edited(final(self)@, 0, 0, Seq::empty(), target)
            }),
    {
        proof {
            encode_utf8_valid_utf8(self.query@);
            encode_utf8_valid_utf8(self.replacement@);
            is_char_boundary_start_end_of_seq(encode_utf8(self.query@));
            is_char_boundary_start_end_of_seq(encode_utf8(self.replacement@));
            let q = encode_utf8(self.query@);
            let p = encode_utf8(self.replacement@);
            assert(q.subrange(0, 0) + Seq::<u8>::empty() + q.subrange(0, q.len() as int) =~= q);
            assert(p.subrange(0, 0) + Seq::<u8>::empty() + p.subrange(0, p.len() as int) =~= p);
        }
        match self.focused {
            SearchField::Query => {
                self.query_cursor = if right {
                    next_grapheme_boundary(self.query.as_str(), self.query_cursor)
                } else {
                    previous_grapheme_boundary(self.query.as_str(), self.query_cursor)
                };
            },
            SearchField::Replacement => {
                self.replacement_cursor = if right {
                    next_grapheme_boundary(self.replacement.as_str(), self.replacement_cursor)
                } else {
                    previous_grapheme_boundary(self.replacement.as_str(), self.replacement_cursor)
                };
            },
        }
    }
}

/// Replacement commands act only with the replacement field shown and no
/// search composition in progress.
pub fn replacement_allowed(search: &SearchSession) -> (r: bool)
    ensures
        r == (search@.replace_visible && search@.preedit.len() == 0),
{
    search.replace_visible && !search.is_composing()
}


/// A refresh keeps the active match where it was, clamped into the new
/// matches: an active index `a` becomes `min(a, n - 1)` for `n > 0` matches,
/// nothing active starts at the first match, and no matches leave nothing
/// active. Refreshing again with as many matches changes nothing.
pub proof fn lemma_refresh_keeps_active_match(v: SearchView, found: nat)
    ensures
        found == 0 ==> v.refreshed_active(found) is None,
        found > 0 && v.active is None ==> v.refreshed_active(found) == Some(0usize),
        found > 0 ==> (v.active matches Some(a) ==> (v.refreshed_active(found) matches Some(r) && (
        a < found ==> r == a) && (a >= found ==> r == found - 1))),
        found > 0 ==> (SearchView { active: v.refreshed_active(found), ..v }).refreshed_active(found)
            == v.refreshed_active(found),
{
}

} // verus!
