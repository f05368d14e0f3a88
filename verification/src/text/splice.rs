//! Replacing a byte range of UTF-8 text between two char boundaries.

use vstd::prelude::*;
use vstd::string::{StringExecFns, StringSliceAdditionalSpecFns};
use vstd::utf8::{
    encode_utf8, encode_utf8_valid_utf8, is_char_boundary, is_char_boundary_iff_not_is_continuation_byte,
    is_char_boundary_start_end_of_seq, valid_utf8, valid_utf8_concat, valid_utf8_split,
};

verus! {

/// Encoding a concatenation concatenates the encodings.
pub proof fn lemma_encode_concat(a: Seq<char>, b: Seq<char>)
    ensures
        encode_utf8(a + b) == encode_utf8(a) + encode_utf8(b),
    decreases a.len(),
{
    if a.len() == 0 {
        assert(a + b =~= b);
        assert(encode_utf8(a) =~= Seq::<u8>::empty());
        assert(encode_utf8(a) + encode_utf8(b) =~= encode_utf8(b));
    } else {
        assert((a + b).drop_first() =~= a.drop_first() + b);
        assert((a + b)[0] == a[0]);
        lemma_encode_concat(a.drop_first(), b);
        assert(encode_utf8(a + b) =~= encode_utf8(a) + encode_utf8(b));
    }
}

/// A char boundary of valid text that lies within a prefix ending at a char
/// boundary is a char boundary of that prefix.
pub proof fn lemma_prefix_boundary(b: Seq<u8>, end: int, i: int)
    requires
        valid_utf8(b),
        is_char_boundary(b, end),
        is_char_boundary(b, i),
        0 <= i <= end <= b.len(),
    ensures
        valid_utf8(b.subrange(0, end)),
        is_char_boundary(b.subrange(0, end), i),
{
    valid_utf8_split(b, end);
    let p = b.subrange(0, end);
    if i == end {
        is_char_boundary_start_end_of_seq(p);
    } else {
        is_char_boundary_iff_not_is_continuation_byte(b, i);
        is_char_boundary_iff_not_is_continuation_byte(p, i);
    }
}

/// Where two valid texts are joined is a char boundary of the result.
pub proof fn lemma_join_boundary(x: Seq<u8>, y: Seq<u8>)
    requires
        valid_utf8(x),
        valid_utf8(y),
    ensures
        valid_utf8(x + y),
        is_char_boundary(x + y, x.len() as int),
{
    valid_utf8_concat(x, y);
    if y.len() == 0 {
        assert(x + y =~= x);
        is_char_boundary_start_end_of_seq(x);
    } else {
        is_char_boundary_start_end_of_seq(y);
        is_char_boundary_iff_not_is_continuation_byte(y, 0);
        is_char_boundary_iff_not_is_continuation_byte(x + y, x.len() as int);
        assert((x + y)[x.len() as int] == y[0]);
    }
}

/// After replacing the bytes between two char boundaries of valid text by
/// valid text, the end of the inserted text is a char boundary.
pub proof fn lemma_splice_boundary(b: Seq<u8>, start: int, end: int, inserted: Seq<u8>)
    requires
        valid_utf8(b),
        valid_utf8(inserted),
        0 <= start <= end <= b.len(),
        is_char_boundary(b, start),
        is_char_boundary(b, end),
    ensures
        valid_utf8(b.subrange(0, start) + inserted + b.subrange(end, b.len() as int)),
        is_char_boundary(
            b.subrange(0, start) + inserted + b.subrange(end, b.len() as int),
            start + inserted.len(),
        ),
{
    valid_utf8_split(b, start);
    valid_utf8_split(b, end);
    let head = b.subrange(0, start);
    lemma_join_boundary(head, inserted);
    lemma_join_boundary(head + inserted, b.subrange(end, b.len() as int));
}

/// `value` with the bytes from `start` to `end` replaced by `inserted`.
pub fn splice(value: &str, start: usize, end: usize, inserted: &str) -> (r: String)
    requires
        start <= end <= value.spec_bytes().len(),
        is_char_boundary(value.spec_bytes(), start as int),
        is_char_boundary(value.spec_bytes(), end as int),
    ensures
        encode_utf8(r@) == value.spec_bytes().subrange(0, start as int) + inserted.spec_bytes()
            + value.spec_bytes().subrange(end as int, value.spec_bytes().len() as int),
{
    let ghost b = value.spec_bytes();
    proof {
        encode_utf8_valid_utf8(value@);
        lemma_prefix_boundary(b, end as int, start as int);
    }
    let (left, tail) = value.split_at(end);
    let (head, _) = left.split_at(start);
    let mut out = String::from_str(head);
    out.append(inserted);
    out.append(tail);
    proof {
        lemma_encode_concat(head@, inserted@);
        lemma_encode_concat(head@ + inserted@, tail@);
        assert(left.spec_bytes().subrange(0, start as int) =~= b.subrange(0, start as int));
        assert(out@ == head@ + inserted@ + tail@);
    }
    out
}

} // verus!
