//! Names chosen by a Markdown export: the sibling asset directory, the
//! content-addressed file name of each copied image, and its extension.

use vstd::prelude::*;
use vstd::string::{StrSliceExecFns, StringExecFns};

use crate::assets::path::{ascii_lower, ascii_lower_char, spec_decode, spec_hex, spec_percent_decode};
use crate::model::DiskFingerprint;
use crate::shell::monitor::{hex_identity, hex_of};
use crate::text::encoding::{
    append_decimal, decimal_digits, encode_byte, encode_bytes, hex_digit, is_unreserved, push_char,
};
use crate::text::splice::lemma_encode_concat;
use vstd::utf8::{
    encode_utf8, encode_utf8_decode_utf8, encode_utf8_valid_utf8, is_ascii_chars,
    is_ascii_chars_encode_utf8,
};

verus! {

/// Every candidate name of one digest was taken by a different digest.
#[derive(Debug, Clone, Copy, PartialEq, Eq, Structural)]
pub enum ExportNameError {
    AssetNameCollision,
}

proof fn lemma_hex_of_len(bytes: Seq<u8>)
    ensures
        hex_of(bytes).len() == 2 * bytes.len(),
    decreases bytes.len(),
{
    if bytes.len() > 0 {
        lemma_hex_of_len(bytes.drop_last());
    }
}

/// The digest recorded for `name` in `occupied`, by its first entry.
pub open spec fn lookup(occupied: Seq<(String, [u8; 32])>, name: Seq<char>) -> Option<Seq<u8>>
    decreases occupied.len(),
{
    if occupied.len() == 0 {
        None
    } else if occupied[0].0@ == name {
        Some(occupied[0].1@)
    } else {
        lookup(occupied.drop_first(), name)
    }
}

fn find_occupied(occupied: &Vec<(String, [u8; 32])>, name: &String) -> (r: Option<[u8; 32]>)
    ensures
        match lookup(occupied@, name@) {
            Some(h) => r matches Some(found) && found@ == h,
            None => r is None,
        },
{
    let mut i: usize = 0;
    assert(occupied@.subrange(0, occupied@.len() as int) =~= occupied@);
    while i < occupied.len()
        invariant
            i <= occupied@.len(),
            lookup(occupied@, name@) == lookup(occupied@.subrange(i as int, occupied@.len() as int), name@),
        decreases occupied@.len() - i,
    {
        proof {
            let rest = occupied@.subrange(i as int, occupied@.len() as int);
            assert(rest.drop_first() =~= occupied@.subrange(i + 1, occupied@.len() as int));
            assert(rest[0] == occupied@[i as int]);
        }
        if occupied[i].0 == *name {
            return Some(occupied[i].1);
        }
        i += 1;
    }
    assert(occupied@.subrange(i as int, occupied@.len() as int) =~= Seq::<(String, [u8; 32])>::empty());
    None
}

/// `stickymd-` followed by the first `length` hex digits and the extension.
pub open spec fn candidate_name(hex: Seq<char>, length: int, extension: Seq<char>) -> Seq<char> {
    seq!['s', 't', 'i', 'c', 'k', 'y', 'm', 'd', '-'] + hex.take(length) + seq!['.'] + extension
}

/// Whether `name` may be used for `digest`: unused, or already its own.
pub open spec fn usable(occupied: Seq<(String, [u8; 32])>, name: Seq<char>, digest: [u8; 32]) -> bool {
    match lookup(occupied, name) {
        None => true,
        Some(h) => h == digest@,
    }
}

/// The shortest of the 20-, 32- and 64-digit names that is usable.
pub open spec fn spec_export_asset_name(
    digest: [u8; 32],
    extension: Seq<char>,
    occupied: Seq<(String, [u8; 32])>,
) -> Option<Seq<char>> {
    let hex = hex_of(digest@);
    if usable(occupied, candidate_name(hex, 20, extension), digest) {
        Some(candidate_name(hex, 20, extension))
    } else if usable(occupied, candidate_name(hex, 32, extension), digest) {
        Some(candidate_name(hex, 32, extension))
    } else if usable(occupied, candidate_name(hex, 64, extension), digest) {
        Some(candidate_name(hex, 64, extension))
    } else {
        None
    }
}

fn candidate(hex: &str, length: usize, extension: &str) -> (r: String)
    requires
        length <= hex@.len(),
    ensures
        r@ == candidate_name(hex@, length as int, extension@),
{
    let mut name = String::from_str("stickymd-");
    proof {
        reveal_strlit("stickymd-");
    }
    name.append(hex.substring_char(0, length));
    push_char(&mut name, '.');
    name.append(extension);
    assert(name@ =~= candidate_name(hex@, length as int, extension@));
    name
}

/// The file name of a copied image with digest `digest`: the shortest
/// hex-prefix name not already taken by another digest among the names this
/// export has assigned.
pub fn export_asset_name(
    digest: [u8; 32],
    extension: &str,
    occupied: &Vec<(String, [u8; 32])>,
) -> (r: Result<String, ExportNameError>)
    ensures
        match spec_export_asset_name(digest, extension@, occupied@) {
            Some(name) => r matches Ok(s) && s@ == name,
            None => r == Err::<String, ExportNameError>(ExportNameError::AssetNameCollision),
        },
{
    let hex = hex_identity(digest);
    proof {
        lemma_hex_of_len(digest@);
    }
    let lengths: [usize; 3] = [20, 32, 64];
    let mut k: usize = 0;
    while k < 3
        invariant
            k <= 3,
            lengths@ == seq![20usize, 32usize, 64usize],
            hex@ == hex_of(digest@),
            hex@.len() == 64,
            forall|j: int| 0 <= j < k ==> !usable(
                occupied@,
                candidate_name(hex@, #[trigger] lengths@[j] as int, extension@),
                digest,
            ),
        decreases 3 - k,
    {
        let name = candidate(hex.as_str(), lengths[k], extension);
        let free = match find_occupied(occupied, &name) {
            None => true,
            Some(existing) => DiskFingerprint(existing).same_as(&DiskFingerprint(digest)),
        };
        if free {
            proof {
                assert(usable(occupied@, name@, digest)) by {
                    match lookup(occupied@, name@) {
                        Some(h) => {},
                        None => {},
                    }
                }
                if k >= 1 {
                    assert(!usable(occupied@, candidate_name(hex@, lengths@[0] as int, extension@), digest));
                }
                if k >= 2 {
                    assert(!usable(occupied@, candidate_name(hex@, lengths@[1] as int, extension@), digest));
                }
            }
            return Ok(name);
        }
        proof {
            assert(!usable(occupied@, name@, digest)) by {
                match lookup(occupied@, name@) {
                    Some(h) => {},
                    None => {},
                }
            }
        }
        k += 1;
    }
    proof {
        assert(!usable(occupied@, candidate_name(hex@, lengths@[0] as int, extension@), digest));
        assert(!usable(occupied@, candidate_name(hex@, lengths@[1] as int, extension@), digest));
        assert(!usable(occupied@, candidate_name(hex@, lengths@[2] as int, extension@), digest));
    }
    Err(ExportNameError::AssetNameCollision)
}

pub open spec fn is_ascii_alphanumeric(c: char) -> bool {
    ('0' <= c <= '9') || ('a' <= c <= 'z') || ('A' <= c <= 'Z')
}

/// A source file's extension as an export keeps it: lower-cased when it is
/// one to ten ASCII letters and digits, otherwise `img`.
pub open spec fn spec_export_extension(extension: Option<Seq<char>>) -> Seq<char> {
    match extension {
        Some(e) => if 0 < e.len() <= 10 && forall|i: int| 0 <= i < e.len() ==> is_ascii_alphanumeric(#[trigger] e[i]) {
            e.map_values(|c: char| ascii_lower(c))
        } else {
            seq!['i', 'm', 'g']
        },
        None => seq!['i', 'm', 'g'],
    }
}

pub fn export_extension(extension: Option<&str>) -> (r: String)
    ensures
        r@ == spec_export_extension(
            match extension {
                Some(e) => Some(e@),
                None => None,
            },
        ),
{
    let fallback = String::from_str("img");
    proof {
        reveal_strlit("img");
        assert(fallback@ =~= seq!['i', 'm', 'g']);
    }
    let e = match extension {
        Some(e) => e,
        None => return fallback,
    };
    let n = e.unicode_len();
    if n == 0 || n > 10 {
        return fallback;
    }
    let mut out = String::new();
    let mut i: usize = 0;
    while i < n
        invariant
            i <= n <= 10,
            n == e@.len(),
            fallback@ == seq!['i', 'm', 'g'],
            extension == Some(e),
            forall|j: int| 0 <= j < i ==> is_ascii_alphanumeric(#[trigger] e@[j]),
            out@ == e@.take(i as int).map_values(|c: char| ascii_lower(c)),
        decreases n - i,
    {
        let c = e.get_char(i);
        if !(('0' <= c && c <= '9') || ('a' <= c && c <= 'z') || ('A' <= c && c <= 'Z')) {
            assert(!is_ascii_alphanumeric(e@[i as int]));
            return fallback;
        }
        push_char(&mut out, ascii_lower_char(c));
        proof {
            assert(e@.take(i + 1).map_values(|c: char| ascii_lower(c)) =~= e@.take(i as int).map_values(
                |c: char| ascii_lower(c),
            ).push(ascii_lower(c)));
        }
        i += 1;
    }
    assert(e@.take(n as int) =~= e@);
    out
}

/// `STEM-assets` for the first candidate, `STEM-assets-N` for candidate `N`.
pub open spec fn spec_asset_directory_leaf(stem: Seq<char>, suffix: u32) -> Seq<char> {
    stem + seq!['-', 'a', 's', 's', 'e', 't', 's'] + (if suffix == 1 {
        Seq::empty()
    } else {
        seq!['-'] + decimal_digits(suffix as nat)
    })
}

/// The name of the `suffix`-th candidate asset directory beside an export.
pub fn asset_directory_leaf(stem: &str, suffix: u32) -> (r: String)
    ensures
        r@ == spec_asset_directory_leaf(stem@, suffix),
{
    let mut leaf = String::from_str(stem);
    leaf.append("-assets");
    proof {
        reveal_strlit("-assets");
    }
    if suffix != 1 {
        push_char(&mut leaf, '-');
        append_decimal(&mut leaf, suffix as u64);
    }
    assert(leaf@ =~= spec_asset_directory_leaf(stem@, suffix));
    leaf
}

/// Percent-decoding a concatenation whose first part decodes on its own
/// decodes the parts separately.
proof fn lemma_decode_concat(x: Seq<u8>, y: Seq<u8>)
    requires
        spec_percent_decode(x) is Some,
    ensures
        spec_percent_decode(x + y) == (match spec_percent_decode(y) {
            Some(dy) => Some(spec_percent_decode(x)->0 + dy),
            None => None::<Seq<u8>>,
        }),
    decreases x.len(),
{
    if x.len() == 0 {
        assert(x + y =~= y);
        match spec_percent_decode(y) {
            Some(dy) => assert(Seq::<u8>::empty() + dy =~= dy),
            None => {},
        }
    } else if x[0] == 37u8 {
        let rest = x.subrange(3, x.len() as int);
        assert((x + y).subrange(3, (x + y).len() as int) =~= rest + y);
        assert((x + y)[0] == x[0] && (x + y)[1] == x[1] && (x + y)[2] == x[2]);
        lemma_decode_concat(rest, y);
        match spec_percent_decode(y) {
            Some(dy) => {
                let v = seq![(spec_hex(x[1])->0 * 16 + spec_hex(x[2])->0) as u8];
                assert(v + (spec_percent_decode(rest)->0 + dy) =~= (v + spec_percent_decode(rest)->0) + dy);
            },
            None => {},
        }
    } else {
        let rest = x.subrange(1, x.len() as int);
        assert((x + y).subrange(1, (x + y).len() as int) =~= rest + y);
        assert((x + y)[0] == x[0]);
        lemma_decode_concat(rest, y);
        match spec_percent_decode(y) {
            Some(dy) => {
                let v = seq![x[0]];
                assert(v + (spec_percent_decode(rest)->0 + dy) =~= (v + spec_percent_decode(rest)->0) + dy);
            },
            None => {},
        }
    }
}

proof fn lemma_hex_digit_reads_back(d: int)
    requires
        0 <= d < 16,
    ensures
        (hex_digit(d, true) as u32) < 128,
        spec_hex(hex_digit(d, true) as u32 as u8) == Some(d as u8),
{
}

/// The encoding of one byte percent-decodes to that byte.
proof fn lemma_encoded_byte_decodes(b: u8)
    ensures
        spec_percent_decode(encode_utf8(encode_byte(b))) == Some(seq![b]),
{
    let chars = encode_byte(b);
    if is_unreserved(b) {
        assert(is_ascii_chars(chars));
        is_ascii_chars_encode_utf8(chars);
        let bytes = encode_utf8(chars);
        assert(bytes[0] == (b as char) as u8);
        assert(bytes =~= seq![b]);
        assert(b != 37u8);
        assert(bytes.subrange(1, 1) =~= Seq::<u8>::empty());
        assert(spec_percent_decode(Seq::<u8>::empty()) == Some(Seq::<u8>::empty()));
        assert(spec_percent_decode(bytes) == Some(seq![b] + Seq::<u8>::empty()));
        assert(seq![b] + Seq::<u8>::empty() =~= seq![b]);
    } else {
        lemma_hex_digit_reads_back((b / 16) as int);
        lemma_hex_digit_reads_back((b % 16) as int);
        assert(is_ascii_chars(chars));
        is_ascii_chars_encode_utf8(chars);
        let bytes = encode_utf8(chars);
        assert(bytes.len() == 3);
        assert(bytes[0] == 37u8);
        assert(bytes[1] == hex_digit((b / 16) as int, true) as u32 as u8);
        assert(bytes[2] == hex_digit((b % 16) as int, true) as u32 as u8);
        let hi = spec_hex(bytes[1])->0;
        let lo = spec_hex(bytes[2])->0;
        assert(hi == (b / 16) as u8);
        assert(lo == (b % 16) as u8);
        assert(bytes.subrange(3, 3) =~= Seq::<u8>::empty());
        assert(spec_percent_decode(Seq::<u8>::empty()) == Some(Seq::<u8>::empty()));
        assert((hi * 16 + lo) as u8 == b) by (nonlinear_arith)
            requires
                hi == b / 16,
                lo == b % 16,
        ;
        assert(spec_percent_decode(bytes) == Some(seq![(hi * 16 + lo) as u8] + Seq::<u8>::empty()));
        assert(seq![b] + Seq::<u8>::empty() =~= seq![b]);
    }
}

/// Percent-encoded bytes decode back to those bytes.
proof fn lemma_encoded_bytes_decode(bytes: Seq<u8>)
    ensures
        spec_percent_decode(encode_utf8(encode_bytes(bytes))) == Some(bytes),
    decreases bytes.len(),
{
    if bytes.len() == 0 {
        assert(encode_utf8(encode_bytes(bytes)) =~= Seq::<u8>::empty());
    } else {
        let init = bytes.drop_last();
        lemma_encoded_bytes_decode(init);
        lemma_encoded_byte_decodes(bytes.last());
        lemma_encode_concat(encode_bytes(init), encode_byte(bytes.last()));
        lemma_decode_concat(
            encode_utf8(encode_bytes(init)),
            encode_utf8(encode_byte(bytes.last())),
        );
        assert(init + seq![bytes.last()] =~= bytes);
    }
}

/// A name percent-encoded as a Markdown path segment decodes back to the
/// same name, so an exported asset directory link resolves to the directory.
pub proof fn lemma_encoded_segment_decodes(name: Seq<char>)
    ensures
        spec_decode(encode_bytes(encode_utf8(name))) == Some(name),
{
    lemma_encoded_bytes_decode(encode_utf8(name));
    encode_utf8_valid_utf8(name);
    encode_utf8_decode_utf8(name);
}

} // verus!
