//! Local Markdown image destination resolution shared by Preview and Export.

use vstd::prelude::*;
use vstd::string::StringSliceAdditionalSpecFns;
use vstd::string::StrSliceExecFns;
use vstd::utf8::{decode_utf8, encode_utf8, valid_utf8};

use crate::text::encoding::push_char;

verus! {

#[derive(Debug, Clone, PartialEq, Eq)]
pub enum LocalImagePathError {
    InvalidPercentEncoding(String),
    InvalidUtf8(String),
}

/// Whether `c` has the Unicode `White_Space` property: tab through carriage
/// return, space, NEL, no-break space, Ogham space mark, the spaces
/// U+2000..=U+200A, the line and paragraph separators, narrow no-break space,
/// medium mathematical space and ideographic space.
pub open spec fn char_is_whitespace(c: char) -> bool {
    let u = c as u32;
    ||| 0x09 <= u <= 0x0D
    ||| u == 0x20
    ||| u == 0x85
    ||| u == 0xA0
    ||| u == 0x1680
    ||| 0x2000 <= u <= 0x200A
    ||| u == 0x2028
    ||| u == 0x2029
    ||| u == 0x202F
    ||| u == 0x205F
    ||| u == 0x3000
}

/// `s[i..j]` is what remains of `s` once its leading and trailing characters
/// with the property `ws` are taken off.
pub open spec fn is_trim_span(s: Seq<char>, i: int, j: int, ws: spec_fn(char) -> bool) -> bool {
    &&& 0 <= i <= j <= s.len()
    &&& forall|k: int| 0 <= k < i ==> ws(#[trigger] s[k])
    &&& forall|k: int| j <= k < s.len() ==> ws(#[trigger] s[k])
    &&& i < j ==> !ws(s[i]) && !ws(s[j - 1])
}

/// `r` is `s` without its leading and trailing characters with the property
/// `ws`: the span between the first and the last other character (empty when
/// there is none).
pub open spec fn is_trim_of(r: Seq<char>, s: Seq<char>, ws: spec_fn(char) -> bool) -> bool {
    exists|i: int, j: int| #[trigger] is_trim_span(s, i, j, ws) && r == s.subrange(i, j)
}

/// The trimmed form of a string is unique.
pub proof fn lemma_trim_unique(r1: Seq<char>, r2: Seq<char>, s: Seq<char>, ws: spec_fn(char) -> bool)
    requires
        is_trim_of(r1, s, ws),
        is_trim_of(r2, s, ws),
    ensures
        r1 == r2,
{
    let (i1, j1) = choose|i: int, j: int| #[trigger] is_trim_span(s, i, j, ws) && r1 == s.subrange(i, j);
    let (i2, j2) = choose|i: int, j: int| #[trigger] is_trim_span(s, i, j, ws) && r2 == s.subrange(i, j);
    if i1 < j1 && i2 < j2 {
        assert(!ws(s[i1]));
        assert(!ws(s[i2]));
        assert(!ws(s[j1 - 1]));
        assert(!ws(s[j2 - 1]));
        assert(i1 == i2);
        assert(j1 == j2);
    } else if i1 < j1 {
        assert(!ws(s[i1]));
        assert(i1 < i2 || j2 <= i1);
    } else if i2 < j2 {
        assert(!ws(s[i2]));
        assert(i2 < i1 || j1 <= i2);
    }
    assert(r1 =~= r2);
}

/// Calls `str::trim`, which removes leading and trailing `White_Space`
/// characters.
#[verifier::external_body]
fn trim(s: &str) -> (r: &str)
    ensures
        is_trim_of(r@, s@, |c: char| char_is_whitespace(c)),
{
    s.trim()
}

/// Calls `String::from_utf8`, which succeeds exactly on valid UTF-8 and then
/// holds the decoded characters.
#[verifier::external_body]
fn string_from_utf8(bytes: Vec<u8>) -> (r: Option<String>)
    ensures
        r is Some <==> valid_utf8(bytes@),
        r matches Some(s) ==> s@ == decode_utf8(bytes@),
{
    String::from_utf8(bytes).ok()
}

/// The value of an ASCII hexadecimal digit.
pub open spec fn spec_hex(value: u8) -> Option<u8> {
    if 48 <= value <= 57 {
        Some((value - 48) as u8)
    } else if 97 <= value <= 102 {
        Some((value - 97 + 10) as u8)
    } else if 65 <= value <= 70 {
        Some((value - 65 + 10) as u8)
    } else {
        None
    }
}

pub fn hex(value: u8) -> (r: Option<u8>)
    ensures
        r == spec_hex(value),
{
    if 48u8 <= value && value <= 57u8 {
        Some(value - 48u8)
    } else if 97u8 <= value && value <= 102u8 {
        Some(value - 97u8 + 10u8)
    } else if 65u8 <= value && value <= 70u8 {
        Some(value - 65u8 + 10u8)
    } else {
        None
    }
}

/// Percent-decoding of bytes: `%XX` becomes the byte `0xXX`, other bytes stay;
/// a `%` without two hexadecimal digits after it makes the input invalid.
pub open spec fn spec_percent_decode(b: Seq<u8>) -> Option<Seq<u8>>
    decreases b.len(),
{
    if b.len() == 0 {
        Some(Seq::empty())
    } else if b[0] == 37u8 {
        if b.len() >= 3 && spec_hex(b[1]) is Some && spec_hex(b[2]) is Some {
            match spec_percent_decode(b.subrange(3, b.len() as int)) {
                Some(rest) => Some(
                    seq![(spec_hex(b[1])->0 * 16 + spec_hex(b[2])->0) as u8] + rest,
                ),
                None => None,
            }
        } else {
            None
        }
    } else {
        match spec_percent_decode(b.subrange(1, b.len() as int)) {
            Some(rest) => Some(seq![b[0]] + rest),
            None => None,
        }
    }
}

fn percent_decode_bytes(bytes: &[u8]) -> (r: Option<Vec<u8>>)
    ensures
        match spec_percent_decode(bytes@) {
            Some(d) => r matches Some(v) && v@ == d,
            None => r is None,
        },
{
    let mut decoded: Vec<u8> = Vec::new();
    let mut index: usize = 0;
    proof {
        assert(bytes@.subrange(0, bytes@.len() as int) =~= bytes@);
        match spec_percent_decode(bytes@) {
            Some(all) => assert(decoded@ + all =~= all),
            None => {},
        }
    }
    while index < bytes.len()
        invariant
            0 <= index <= bytes@.len(),
            spec_percent_decode(bytes@) == (match spec_percent_decode(
                bytes@.subrange(index as int, bytes@.len() as int),
            ) {
                Some(rest) => Some(decoded@ + rest),
                None => None::<Seq<u8>>,
            }),
        decreases bytes@.len() - index,
    {
        let ghost rest = bytes@.subrange(index as int, bytes@.len() as int);
        if bytes[index] == 37u8 {
            if bytes.len() - index < 3 {
                return None;
            }
            let high = match hex(bytes[index + 1]) {
                Some(h) => h,
                None => return None,
            };
            let low = match hex(bytes[index + 2]) {
                Some(l) => l,
                None => return None,
            };
            let ghost before = decoded@;
            decoded.push(high * 16 + low);
            proof {
                assert(rest[1] == bytes@[index + 1]);
                assert(rest[2] == bytes@[index + 2]);
                assert(rest.subrange(3, rest.len() as int) =~= bytes@.subrange(
                    index + 3,
                    bytes@.len() as int,
                ));
                match spec_percent_decode(bytes@.subrange(index + 3, bytes@.len() as int)) {
                    Some(r) => {
                        assert(before + (seq![(high * 16 + low) as u8] + r) =~= decoded@ + r);
                    },
                    None => {},
                }
            }
            index += 3;
        } else {
            let ghost before = decoded@;
            decoded.push(bytes[index]);
            proof {
                assert(rest.subrange(1, rest.len() as int) =~= bytes@.subrange(
                    index + 1,
                    bytes@.len() as int,
                ));
                match spec_percent_decode(bytes@.subrange(index + 1, bytes@.len() as int)) {
                    Some(r) => {
                        assert(before + (seq![rest[0]] + r) =~= decoded@ + r);
                    },
                    None => {},
                }
            }
            index += 1;
        }
    }
    proof {
        assert(bytes@.subrange(index as int, bytes@.len() as int) =~= Seq::<u8>::empty());
        assert(decoded@ + Seq::<u8>::empty() =~= decoded@);
    }
    Some(decoded)
}

/// Percent-decoded text of `value`, when its escapes are well formed and the
/// decoded bytes are UTF-8.
pub open spec fn spec_decode(value: Seq<char>) -> Option<Seq<char>> {
    match spec_percent_decode(encode_utf8(value)) {
        Some(d) => if valid_utf8(d) {
            Some(decode_utf8(d))
        } else {
            None
        },
        None => None,
    }
}

/// The error that percent-decoding `value` reports: a malformed escape, or
/// bytes that are not UTF-8; either names `value`.
pub open spec fn decode_error_matches(e: LocalImagePathError, value: Seq<char>) -> bool {
    match e {
        LocalImagePathError::InvalidPercentEncoding(v) => v@ == value && spec_percent_decode(
            encode_utf8(value),
        ) is None,
        LocalImagePathError::InvalidUtf8(v) => v@ == value && spec_percent_decode(
            encode_utf8(value),
        ) is Some && spec_decode(value) is None,
    }
}

/// `r` is the outcome of percent-decoding `value`.
pub open spec fn decode_outcome(r: Result<String, LocalImagePathError>, value: Seq<char>) -> bool {
    match spec_decode(value) {
        Some(d) => r matches Ok(s) && s@ == d,
        None => r matches Err(e) && decode_error_matches(e, value),
    }
}

/// Percent-decodes `value` into UTF-8 text.
pub fn percent_decode(value: &str) -> (r: Result<String, LocalImagePathError>)
    ensures
        decode_outcome(r, value@),
{
    match percent_decode_bytes(value.as_bytes()) {
        None => Err(LocalImagePathError::InvalidPercentEncoding(value.to_owned())),
        Some(decoded) => match string_from_utf8(decoded) {
            Some(text) => Ok(text),
            None => Err(LocalImagePathError::InvalidUtf8(value.to_owned())),
        },
    }
}

/// ASCII lower case of `c`; other characters are unchanged.
pub open spec fn ascii_lower(c: char) -> char {
    if 'A' <= c <= 'Z' {
        ((c as u32) + 32) as char
    } else {
        c
    }
}

pub(crate) fn ascii_lower_char(c: char) -> (r: char)
    ensures
        r == ascii_lower(c),
{
    if 'A' <= c && c <= 'Z' {
        let code: u32 = c as u32;
        let lowered: u8 = (code + 32) as u8;
        lowered as char
    } else {
        c
    }
}

/// The first `n` characters of `file:///`.
pub open spec fn file_url_prefix(n: int) -> Seq<char> {
    seq!['f', 'i', 'l', 'e', ':', '/', '/', '/'].take(n)
}

/// `s` begins with `p`, comparing ASCII letters without regard to case (`p`
/// is lower case).
pub open spec fn starts_with_ignore_ascii_case(s: Seq<char>, p: Seq<char>) -> bool {
    p.len() <= s.len() && forall|k: int| 0 <= k < p.len() ==> ascii_lower(#[trigger] s[k]) == p[k]
}

fn file_url_prefix_char(k: usize) -> (c: char)
    requires
        k < 8,
    ensures
        c == file_url_prefix(8)[k as int],
{
    if k == 0 {
        'f'
    } else if k == 1 {
        'i'
    } else if k == 2 {
        'l'
    } else if k == 3 {
        'e'
    } else if k == 4 {
        ':'
    } else {
        '/'
    }
}

fn starts_with_file_url(t: &str, t_len: usize, n: usize) -> (b: bool)
    requires
        t_len == t@.len(),
        n <= 8,
    ensures
        b == starts_with_ignore_ascii_case(t@, file_url_prefix(n as int)),
{
    if t_len < n {
        return false;
    }
    let mut k: usize = 0;
    while k < n
        invariant
            k <= n <= 8,
            n <= t@.len(),
            t_len == t@.len(),
            forall|m: int| 0 <= m < k ==> ascii_lower(#[trigger] t@[m]) == file_url_prefix(
                n as int,
            )[m],
        decreases n - k,
    {
        let c = ascii_lower_char(t.get_char(k));
        if c != file_url_prefix_char(k) {
            assert(file_url_prefix(n as int)[k as int] == file_url_prefix(8)[k as int]);
            return false;
        }
        assert(file_url_prefix(n as int)[k as int] == file_url_prefix(8)[k as int]);
        k += 1;
    }
    true
}

/// The characters of `d` with each `/` turned into `\`.
pub open spec fn backslashed(d: Seq<char>) -> Seq<char> {
    d.map_values(|c: char| if c == '/' { '\\' } else { c })
}

/// A `file://host/share/...` path as a Windows UNC path: `\\host\share\...`.
pub open spec fn unc_path(d: Seq<char>) -> Seq<char> {
    seq!['\\', '\\'] + backslashed(d)
}

fn to_unc_path(decoded: String) -> (r: String)
    ensures
        r@ == unc_path(decoded@),
{
    let mut out = String::new();
    push_char(&mut out, '\\');
    push_char(&mut out, '\\');
    for c in it: decoded.as_str().chars()
        invariant
            it.seq() == decoded@,
            out@ == seq!['\\', '\\'] + backslashed(decoded@.take(it.index() as int)),
    {
        if c == '/' {
            push_char(&mut out, '\\');
        } else {
            push_char(&mut out, c);
        }
        proof {
            assert(backslashed(decoded@.take(it.index() + 1)) =~= backslashed(
                decoded@.take(it.index() as int),
            ).push(if c == '/' { '\\' } else { c }));
        }
    }
    assert(decoded@.take(decoded@.len() as int) =~= decoded@);
    out
}

/// What resolving the trimmed destination `t` gives: `file:///` URLs and
/// `file://` UNC URLs are decoded strictly, any other text is decoded when it
/// can be and kept as written otherwise.
pub open spec fn resolved_outcome(r: Result<String, LocalImagePathError>, t: Seq<char>) -> bool {
    if starts_with_ignore_ascii_case(t, file_url_prefix(8)) {
        decode_outcome(r, t.subrange(8, t.len() as int))
    } else if starts_with_ignore_ascii_case(t, file_url_prefix(7)) {
        let rest = t.subrange(7, t.len() as int);
        match spec_decode(rest) {
            Some(d) => r matches Ok(s) && s@ == unc_path(d),
            None => r matches Err(e) && decode_error_matches(e, rest),
        }
    } else {
        match spec_decode(t) {
            Some(d) => r matches Ok(s) && s@ == d,
            None => r matches Ok(s) && s@ == t,
        }
    }
}

/// Resolves a Markdown image destination to the native path text of a local
/// file. Surrounding white space is ignored; `file:///C:/...` becomes `C:/...`
/// and `file://server/share/...` becomes `\\server\share\...`, both with
/// their percent escapes decoded and refused when malformed; any other text is
/// percent-decoded when that succeeds and kept literally otherwise. A relative
/// result is relative to the note's directory.
pub fn resolve_local_image(destination: &str) -> (r: Result<String, LocalImagePathError>)
    ensures
        forall|t: Seq<char>|
            is_trim_of(t, destination@, |c: char| char_is_whitespace(c)) ==> resolved_outcome(
                r,
                t,
            ),
{
    let t = trim(destination);
    let t_len = t.unicode_len();
    let r = if starts_with_file_url(t, t_len, 8) {
        percent_decode(t.substring_char(8, t_len))
    } else if starts_with_file_url(t, t_len, 7) {
        match percent_decode(t.substring_char(7, t_len)) {
            Ok(decoded) => Ok(to_unc_path(decoded)),
            Err(e) => Err(e),
        }
    } else {
        match percent_decode(t) {
            Ok(decoded) => Ok(decoded),
            Err(_) => Ok(t.to_owned()),
        }
    };
    proof {
        assert forall|u: Seq<char>|
            is_trim_of(u, destination@, |c: char| char_is_whitespace(c)) implies resolved_outcome(
            r,
            u,
        ) by {
            lemma_trim_unique(u, t@, destination@, |c: char| char_is_whitespace(c));
        }
    }
    r
}

}
