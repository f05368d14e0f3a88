//! Unicode-grapheme navigation helpers over byte offsets.

use unicode_segmentation::UnicodeSegmentation;
use vstd::prelude::*;
use vstd::string::StringSliceAdditionalSpecFns;
use vstd::utf8::{encode_utf8, encode_utf8_valid_utf8, is_char_boundary};

use crate::model::Selection;

verus! {

/// Where the last extended grapheme cluster of `text[..byte]` starts.
pub uninterp spec fn grapheme_start_before(text: Seq<char>, byte: usize) -> usize;

/// The byte length of the first extended grapheme cluster of `text[byte..]`.
pub uninterp spec fn grapheme_len_from(text: Seq<char>, byte: usize) -> usize;

/// Calls `UnicodeSegmentation::grapheme_indices(true)` on `text[..byte]` and
/// returns the offset of the last cluster, or 0 for an empty prefix. The
/// clusters it yields are non-empty substrings that tile the prefix, so that
/// offset lies before `byte` and on a char boundary; which boundary it is
/// (the UAX #29 rules) is left to the name.
#[verifier::external_body]
fn last_grapheme_start(text: &str, byte: usize) -> (r: usize)
    requires
        is_char_boundary(text.spec_bytes(), byte as int),
    ensures
        r == grapheme_start_before(text@, byte),
        byte == 0 ==> r == 0,
        byte > 0 ==> r < byte && is_char_boundary(text.spec_bytes(), r as int),
{
    text[..byte].grapheme_indices(true).next_back().map_or(0, |(index, _)| index)
}

/// Calls `UnicodeSegmentation::graphemes(true)` on `text[byte..]` and returns
/// the byte length of the first cluster. A non-empty suffix starts with a
/// non-empty cluster that ends on a char boundary within the text; where it
/// ends (the UAX #29 rules) is left to the name.
#[verifier::external_body]
fn first_grapheme_len(text: &str, byte: usize) -> (r: usize)
    requires
        is_char_boundary(text.spec_bytes(), byte as int),
        byte < text.spec_bytes().len(),
    ensures
        r == grapheme_len_from(text@, byte),
        0 < r <= text.spec_bytes().len() - byte,
        is_char_boundary(text.spec_bytes(), byte + r),
{
    text[byte..].graphemes(true).next().map_or(0, |grapheme| grapheme.len())
}

/// `r` is the greatest char boundary not after `byte` (clamped to the text).
pub open spec fn is_floor_boundary(bytes: Seq<u8>, byte: int, r: int) -> bool {
    let limit = if byte < bytes.len() {
        byte
    } else {
        bytes.len() as int
    };
    &&& 0 <= r <= limit
    &&& is_char_boundary(bytes, r)
    &&& forall|j: int| r < j <= limit ==> !is_char_boundary(bytes, j)
}

/// The greatest char boundary not after `byte`, clamped to the text.
pub open spec fn char_floor(bytes: Seq<u8>, byte: int) -> int {
    choose|r: int| is_floor_boundary(bytes, byte, r)
}

/// There is one floor boundary for each offset.
pub proof fn lemma_floor_unique(bytes: Seq<u8>, byte: int, r1: int, r2: int)
    requires
        is_floor_boundary(bytes, byte, r1),
        is_floor_boundary(bytes, byte, r2),
    ensures
        r1 == r2,
{
    if r1 < r2 {
        assert(!is_char_boundary(bytes, r2));
    } else if r2 < r1 {
        assert(!is_char_boundary(bytes, r1));
    }
}

/// Where stepping left over one grapheme cluster from `byte` of `text` lands.
pub open spec fn prev_boundary_of(text: Seq<char>, byte: usize) -> usize {
    grapheme_start_before(text, char_floor(encode_utf8(text), byte as int) as usize)
}

/// Where stepping right over one grapheme cluster from `byte` of `text` lands.
pub open spec fn next_boundary_of(text: Seq<char>, byte: usize) -> usize {
    let f = char_floor(encode_utf8(text), byte as int);
    if f >= encode_utf8(text).len() {
        encode_utf8(text).len() as usize
    } else {
        (f + grapheme_len_from(text, f as usize)) as usize
    }
}

pub open spec fn prev_boundary(text: &str, byte: usize) -> usize {
    prev_boundary_of(text@, byte)
}

pub open spec fn next_boundary(text: &str, byte: usize) -> usize {
    next_boundary_of(text@, byte)
}

/// Clamps a byte offset onto the text and back to the nearest char boundary.
pub fn floor_char_boundary(text: &str, byte: usize) -> (r: usize)
    ensures
        is_floor_boundary(text.spec_bytes(), byte as int, r as int),
{
    proof {
        encode_utf8_valid_utf8(text@);
    }
    let len = text.as_bytes().len();
    let limit = if byte < len {
        byte
    } else {
        len
    };
    let mut current = limit;
    while !text.is_char_boundary(current)
        invariant
            0 <= current <= limit,
            limit as int == (if byte < text.spec_bytes().len() {
                byte as int
            } else {
                text.spec_bytes().len() as int
            }),
            vstd::utf8::valid_utf8(text.spec_bytes()),
            forall|j: int| current < j <= limit ==> !is_char_boundary(text.spec_bytes(), j),
        decreases current,
    {
        current -= 1;
    }
    current
}

/// Clamps both ends of a selection onto the text, each back to the nearest
/// char boundary, so that a selection kept across a reload stays valid.
pub fn clamp_selection(text: &str, selection: Selection) -> (r: Selection)
    ensures
        is_floor_boundary(text.spec_bytes(), selection.anchor.byte as int, r.anchor.byte as int),
        is_floor_boundary(text.spec_bytes(), selection.active.byte as int, r.active.byte as int),
{
    Selection::new(
        floor_char_boundary(text, selection.anchor.byte),
        floor_char_boundary(text, selection.active.byte),
    )
}

/// The grapheme boundary before `byte` (after clamping it to a char boundary),
/// or 0 at the start of the text.
pub fn previous_grapheme_boundary(text: &str, byte: usize) -> (r: usize)
    ensures
        r == prev_boundary(text, byte),
        exists|f: usize|
            is_floor_boundary(text.spec_bytes(), byte as int, f as int) && r
                == grapheme_start_before(text@, f) && (f == 0 ==> r == 0) && (f > 0 ==> r < f
                && is_char_boundary(text.spec_bytes(), r as int)),
{
    let floor = floor_char_boundary(text, byte);
    let r = last_grapheme_start(text, floor);
    assert(is_floor_boundary(text.spec_bytes(), byte as int, floor as int));
    proof {
        lemma_floor_unique(
            text.spec_bytes(),
            byte as int,
            floor as int,
            char_floor(text.spec_bytes(), byte as int),
        );
    }
    r
}

/// The grapheme boundary after `byte` (after clamping it to a char boundary),
/// or the text length at its end.
pub fn next_grapheme_boundary(text: &str, byte: usize) -> (r: usize)
    ensures
        r == next_boundary(text, byte),
        exists|f: usize|
            is_floor_boundary(text.spec_bytes(), byte as int, f as int) && (if f
                >= text.spec_bytes().len() {
                r == text.spec_bytes().len()
            } else {
                r == f + grapheme_len_from(text@, f) && f < r <= text.spec_bytes().len()
                    && is_char_boundary(text.spec_bytes(), r as int)
            }),
{
    let floor = floor_char_boundary(text, byte);
    proof {
        lemma_floor_unique(
            text.spec_bytes(),
            byte as int,
            floor as int,
            char_floor(text.spec_bytes(), byte as int),
        );
    }
    let len = text.as_bytes().len();
    if floor >= len {
        return len;
    }
    let length = first_grapheme_len(text, floor);
    floor + length
}

/// `r` is where the logical line holding `byte` starts: just after the last
/// newline before it, or 0.
pub open spec fn is_line_start(bytes: Seq<u8>, byte: int, r: int) -> bool {
    &&& 0 <= r <= byte
    &&& (r == 0 || bytes[r - 1] == 10u8)
    &&& forall|j: int| r <= j < byte ==> bytes[j] != 10u8
}

/// `r` is where the logical line holding `byte` ends: at the first newline
/// from it on, or at the end of the text.
pub open spec fn is_line_end(bytes: Seq<u8>, byte: int, r: int) -> bool {
    &&& byte <= r <= bytes.len()
    &&& (r == bytes.len() || bytes[r] == 10u8)
    &&& forall|j: int| byte <= j < r ==> bytes[j] != 10u8
}

/// Start of the logical line holding `byte`, once clamped to a char boundary.
pub open spec fn line_start(text: &str, byte: usize) -> usize {
    (choose|r: int| is_line_start(text.spec_bytes(), char_floor(text.spec_bytes(), byte as int), r)) as usize
}

/// End of the logical line holding `byte`, once clamped to a char boundary.
pub open spec fn line_end(text: &str, byte: usize) -> usize {
    (choose|r: int| is_line_end(text.spec_bytes(), char_floor(text.spec_bytes(), byte as int), r)) as usize
}

proof fn lemma_line_start_unique(bytes: Seq<u8>, byte: int, r1: int, r2: int)
    requires
        is_line_start(bytes, byte, r1),
        is_line_start(bytes, byte, r2),
    ensures
        r1 == r2,
{
    if r1 < r2 {
        assert(bytes[r2 - 1] != 10u8);
    } else if r2 < r1 {
        assert(bytes[r1 - 1] != 10u8);
    }
}

proof fn lemma_line_end_unique(bytes: Seq<u8>, byte: int, r1: int, r2: int)
    requires
        is_line_end(bytes, byte, r1),
        is_line_end(bytes, byte, r2),
    ensures
        r1 == r2,
{
    if r1 < r2 {
        assert(bytes[r1] != 10u8);
    } else if r2 < r1 {
        assert(bytes[r2] != 10u8);
    }
}

/// Start of the logical line (newline excluded) holding the clamped offset.
pub fn logical_line_start(text: &str, byte: usize) -> (r: usize)
    ensures
        r == line_start(text, byte),
        exists|f: usize|
            is_floor_boundary(text.spec_bytes(), byte as int, f as int) && is_line_start(
                text.spec_bytes(),
                f as int,
                r as int,
            ),
{
    let floor = floor_char_boundary(text, byte);
    let bytes = text.as_bytes();
    let mut index = floor;
    while index > 0 && bytes[index - 1] != 10u8
        invariant
            0 <= index <= floor <= bytes@.len(),
            bytes@ == text.spec_bytes(),
            forall|j: int| index <= j < floor ==> bytes@[j] != 10u8,
        decreases index,
    {
        index -= 1;
    }
    assert(is_floor_boundary(text.spec_bytes(), byte as int, floor as int));
    proof {
        let bytes_spec = text.spec_bytes();
        lemma_floor_unique(bytes_spec, byte as int, floor as int, char_floor(bytes_spec, byte as int));
        assert(is_line_start(bytes_spec, floor as int, index as int));
        let c = choose|r: int| is_line_start(bytes_spec, char_floor(bytes_spec, byte as int), r);
        lemma_line_start_unique(bytes_spec, floor as int, index as int, c);
    }
    index
}

/// End of the logical line (newline excluded) holding the clamped offset.
pub fn logical_line_end(text: &str, byte: usize) -> (r: usize)
    ensures
        r == line_end(text, byte),
        exists|f: usize|
            is_floor_boundary(text.spec_bytes(), byte as int, f as int) && is_line_end(
                text.spec_bytes(),
                f as int,
                r as int,
            ),
{
    let floor = floor_char_boundary(text, byte);
    let bytes = text.as_bytes();
    let mut index = floor;
    while index < bytes.len() && bytes[index] != 10u8
        invariant
            floor <= index <= bytes@.len(),
            bytes@ == text.spec_bytes(),
            forall|j: int| floor <= j < index ==> bytes@[j] != 10u8,
        decreases bytes@.len() - index,
    {
        index += 1;
    }
    assert(is_floor_boundary(text.spec_bytes(), byte as int, floor as int));
    proof {
        let bytes_spec = text.spec_bytes();
        lemma_floor_unique(bytes_spec, byte as int, floor as int, char_floor(bytes_spec, byte as int));
        assert(is_line_end(bytes_spec, floor as int, index as int));
        let c = choose|r: int| is_line_end(bytes_spec, char_floor(bytes_spec, byte as int), r);
        lemma_line_end_unique(bytes_spec, floor as int, index as int, c);
    }
    index
}

}
