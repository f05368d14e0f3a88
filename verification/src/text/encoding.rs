//! Small text encodings: decimal numbers, hexadecimal digits, percent-encoded
//! path segments, and newline normalization.

use vstd::prelude::*;
use vstd::string::StringSliceAdditionalSpecFns;

verus! {

/// Appends one character to a string (`String::push`).
#[verifier::external_body]
pub(crate) fn push_char(s: &mut String, c: char)
    ensures
        final(s)@ == old(s)@.push(c),
{
    s.push(c)
}

/// The ASCII decimal digit for `d`.
pub open spec fn digit_char(d: int) -> char {
    (48 + d) as char
}

/// The decimal representation of `n`, without leading zeros.
pub open spec fn decimal_digits(n: nat) -> Seq<char>
    decreases n,
{
    if n < 10 {
        seq![digit_char(n as int)]
    } else {
        decimal_digits(n / 10).push(digit_char((n % 10) as int))
    }
}

/// Appends the decimal representation of `n`.
pub fn append_decimal(out: &mut String, n: u64)
    ensures
        final(out)@ == old(out)@ + decimal_digits(n as nat),
    decreases n,
{
    if n >= 10 {
        append_decimal(out, n / 10);
    }
    let d = (n % 10) as u8;
    push_char(out, (48u8 + d) as char);
    proof {
        assert(old(out)@ + decimal_digits(n as nat) =~= old(out)@ + (if n < 10 {
            seq![digit_char(n as int)]
        } else {
            decimal_digits((n / 10) as nat).push(digit_char((n % 10) as int))
        }));
    }
}

/// The decimal representation of `n` as a new string.
pub fn decimal_string(n: u64) -> (r: String)
    ensures
        r@ == decimal_digits(n as nat),
{
    let mut out = String::new();
    append_decimal(&mut out, n);
    assert(out@ =~= decimal_digits(n as nat));
    out
}

/// The hexadecimal digit for `d` (`0..16`), in upper or lower case.
pub open spec fn hex_digit(d: int, upper: bool) -> char {
    if d < 10 {
        (48 + d) as char
    } else if upper {
        (55 + d) as char
    } else {
        (87 + d) as char
    }
}

pub fn hex_digit_char(d: u8, upper: bool) -> (c: char)
    requires
        d < 16,
    ensures
        c == hex_digit(d as int, upper),
{
    if d < 10 {
        (48u8 + d) as char
    } else if upper {
        (55u8 + d) as char
    } else {
        (87u8 + d) as char
    }
}

/// Bytes kept as they are in a Markdown path segment.
pub open spec fn is_unreserved(b: u8) -> bool {
    (48 <= b <= 57) || (65 <= b <= 90) || (97 <= b <= 122) || b == 45 || b == 95 || b == 46 || b
        == 126
}

/// The encoding of one byte: itself when unreserved, else `%XX` in upper case.
pub open spec fn encode_byte(b: u8) -> Seq<char> {
    if is_unreserved(b) {
        seq![b as char]
    } else {
        seq!['%', hex_digit((b / 16) as int, true), hex_digit((b % 16) as int, true)]
    }
}

/// The percent encoding of a byte sequence, byte by byte.
pub open spec fn encode_bytes(bytes: Seq<u8>) -> Seq<char>
    decreases bytes.len(),
{
    if bytes.len() == 0 {
        Seq::empty()
    } else {
        encode_bytes(bytes.drop_last()) + encode_byte(bytes.last())
    }
}

/// Percent-encodes every byte of `value` outside `A-Z a-z 0-9 - _ . ~`, so that
/// the result is one Markdown-safe path segment.
pub fn encode_markdown_path_segment(value: &str) -> (r: String)
    ensures
        r@ == encode_bytes(value.spec_bytes()),
{
    let bytes = value.as_bytes();
    let mut output = String::new();
    let mut i: usize = 0;
    while i < bytes.len()
        invariant
            0 <= i <= bytes@.len(),
            bytes@ == value.spec_bytes(),
            output@ == encode_bytes(bytes@.take(i as int)),
        decreases bytes@.len() - i,
    {
        let byte = bytes[i];
        let unreserved = (48u8 <= byte && byte <= 57u8) || (65u8 <= byte && byte <= 90u8) || (97u8
            <= byte && byte <= 122u8) || byte == 45u8 || byte == 95u8 || byte == 46u8 || byte
            == 126u8;
        if unreserved {
            push_char(&mut output, byte as char);
        } else {
            push_char(&mut output, '%');
            push_char(&mut output, hex_digit_char(byte / 16, true));
            push_char(&mut output, hex_digit_char(byte % 16, true));
        }
        proof {
            assert(bytes@.take(i + 1).drop_last() =~= bytes@.take(i as int));
            assert(output@ =~= encode_bytes(bytes@.take(i + 1)));
        }
        i += 1;
    }
    assert(bytes@.take(bytes@.len() as int) =~= bytes@);
    output
}

/// What the last character of `s` contributes once carriage returns are
/// normalized: a line feed for `\r`, nothing for the `\n` of a `\r\n`, and
/// itself otherwise.
pub open spec fn normalized_tail(s: Seq<char>) -> Seq<char> {
    let last = s.last();
    if last == '\r' {
        seq!['\n']
    } else if last == '\n' && s.len() >= 2 && s[s.len() - 2] == '\r' {
        Seq::empty()
    } else {
        seq![last]
    }
}

/// Text with every `\r\n` and every lone `\r` turned into `\n`.
pub open spec fn normalized_newlines(s: Seq<char>) -> Seq<char>
    decreases s.len(),
{
    if s.len() == 0 {
        Seq::empty()
    } else {
        normalized_newlines(s.drop_last()) + normalized_tail(s)
    }
}

/// Replaces `\r\n` and lone `\r` with `\n`.
pub fn normalize_runtime_newlines(text: String) -> (r: String)
    ensures
        r@ == normalized_newlines(text@),
{
    let mut output = String::new();
    let mut previous_cr = false;
    for c in it: text.as_str().chars()
        invariant
            it.seq() == text@,
            output@ == normalized_newlines(text@.take(it.index() as int)),
            previous_cr == (it.index() > 0 && text@[it.index() - 1] == '\r'),
    {
        if c == '\r' {
            push_char(&mut output, '\n');
        } else if !(c == '\n' && previous_cr) {
            push_char(&mut output, c);
        }
        previous_cr = c == '\r';
        proof {
            let s = text@.take(it.index() + 1);
            assert(s.drop_last() =~= text@.take(it.index() as int));
            assert(s.last() == c);
            if it.index() >= 1 {
                assert(s[s.len() - 2] == text@[it.index() - 1]);
            }
            assert(output@ =~= normalized_newlines(s));
        }
    }
    assert(text@.take(text@.len() as int) =~= text@);
    output
}

}
