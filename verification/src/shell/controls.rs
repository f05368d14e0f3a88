//! Opacity popup state of the top controls: the slider preview and the
//! numeric input, clamped only when committed.

use vstd::prelude::*;
use vstd::string::StrSliceExecFns;

use crate::text::encoding::{decimal_digits, decimal_string};

verus! {

pub const MIN_OPACITY: u8 = 40;

pub const MAX_OPACITY: u8 = 100;

/// `value` clamped to the opacity range `40..=100`.
pub open spec fn clamp_opacity(value: int) -> int {
    if value < MIN_OPACITY {
        MIN_OPACITY as int
    } else if value > MAX_OPACITY {
        MAX_OPACITY as int
    } else {
        value
    }
}

pub open spec fn is_ascii_digit(c: char) -> bool {
    '0' <= c <= '9'
}

/// The input field accepts at most three ASCII digits.
pub open spec fn acceptable_input(s: Seq<char>) -> bool {
    s.len() <= 3 && forall|i: int| 0 <= i < s.len() ==> is_ascii_digit(#[trigger] s[i])
}

/// The number written by a string of ASCII digits.
pub open spec fn digits_value(s: Seq<char>) -> int
    decreases s.len(),
{
    if s.len() == 0 {
        0
    } else {
        digits_value(s.drop_last()) * 10 + (s.last() as int - 48)
    }
}

/// The digits of `s` after an optional leading `+`.
pub open spec fn unsigned_digits(s: Seq<char>) -> Seq<char> {
    if s.len() > 0 && s[0] == '+' {
        s.drop_first()
    } else {
        s
    }
}

/// `s` read as a `u16` the way `str::parse::<u16>` reads it: an optional `+`,
/// then one or more ASCII digits whose value fits in 16 bits.
pub open spec fn parse_u16(s: Seq<char>) -> Option<u16> {
    let d = unsigned_digits(s);
    if d.len() > 0 && (forall|i: int| 0 <= i < d.len() ==> is_ascii_digit(#[trigger] d[i]))
        && digits_value(d) <= 65535 {
        Some(digits_value(d) as u16)
    } else {
        None
    }
}

proof fn lemma_digits_value_grows(s: Seq<char>, i: int, j: int)
    requires
        0 <= i <= j <= s.len(),
        forall|k: int| 0 <= k < j ==> is_ascii_digit(#[trigger] s[k]),
    ensures
        digits_value(s.take(j)) >= digits_value(s.take(i)),
        digits_value(s.take(j)) >= 0,
    decreases j,
{
    if j > 0 {
        assert(s.take(j).drop_last() =~= s.take(j - 1));
        assert(s.take(j).last() == s[j - 1]);
        lemma_digits_value_grows(
            s,
            if i < j {
                i
            } else {
                j - 1
            },
            j - 1,
        );
    }
}

fn parse_opacity_input(s: &str) -> (r: Option<u16>)
    ensures
        r == parse_u16(s@),
{
    let n = s.unicode_len();
    let mut start: usize = 0;
    if n > 0 && s.get_char(0) == '+' {
        start = 1;
    }
    let ghost d = unsigned_digits(s@);
    assert(d =~= s@.subrange(start as int, n as int));
    if start >= n {
        return None;
    }
    let mut value: u32 = 0;
    let mut i: usize = start;
    while i < n
        invariant
            start <= i <= n,
            n == s@.len(),
            d == s@.subrange(start as int, n as int),
            d == unsigned_digits(s@),
            value <= 65535,
            value == digits_value(d.take(i - start)),
            forall|k: int| 0 <= k < i - start ==> is_ascii_digit(#[trigger] d[k]),
        decreases n - i,
    {
        let c = s.get_char(i);
        if !('0' <= c && c <= '9') {
            assert(!is_ascii_digit(d[i - start]));
            return None;
        }
        let digit: u32 = (c as u32) - 48;
        let next: u32 = value * 10 + digit;
        proof {
            assert(d.take(i - start + 1).drop_last() =~= d.take(i - start));
            assert(d.take(i - start + 1).last() == c);
        }
        if next > 65535 {
            proof {
                if forall|k: int| 0 <= k < d.len() ==> is_ascii_digit(#[trigger] d[k]) {
                    lemma_digits_value_grows(d, i - start + 1, d.len() as int);
                    assert(d.take(d.len() as int) =~= d);
                }
            }
            return None;
        }
        value = next;
        i += 1;
    }
    assert(d.take(n - start) =~= d);
    Some(value as u16)
}

/// The opacity popup: whether it is open or being dragged, the previewed
/// opacity, and the text of its numeric input.
#[derive(Debug, Clone)]
pub struct ControlState {
    pub opacity_popup_open: bool,
    pub opacity_dragging: bool,
    pub opacity_preview: u8,
    pub opacity_input: String,
    pub opacity_input_focused: bool,
}

impl ControlState {
    /// A closed popup previewing `opacity`, clamped to `40..=100`.
    pub fn new(opacity: u8) -> (r: ControlState)
        ensures
            r.opacity_preview == clamp_opacity(opacity as int),
            r.opacity_input@ == decimal_digits(r.opacity_preview as nat),
            !r.opacity_popup_open && !r.opacity_dragging && !r.opacity_input_focused,
    {
        let opacity = if opacity < MIN_OPACITY {
            MIN_OPACITY
        } else if opacity > MAX_OPACITY {
            MAX_OPACITY
        } else {
            opacity
        };
        ControlState {
            opacity_popup_open: false,
            opacity_dragging: false,
            opacity_preview: opacity,
            opacity_input: decimal_string(opacity as u64),
            opacity_input_focused: false,
        }
    }

    /// Previews `opacity`, clamped, and shows it in the input; returns it.
    pub fn preview(&mut self, opacity: u8) -> (r: u8)
        ensures
            r == clamp_opacity(opacity as int),
            final(self).opacity_preview == r,
            final(self).opacity_input@ == decimal_digits(r as nat),
            final(self).opacity_popup_open == old(self).opacity_popup_open,
            final(self).opacity_dragging == old(self).opacity_dragging,
            final(self).opacity_input_focused == old(self).opacity_input_focused,
    {
        self.opacity_preview = if opacity < MIN_OPACITY {
            MIN_OPACITY
        } else if opacity > MAX_OPACITY {
            MAX_OPACITY
        } else {
            opacity
        };
        self.opacity_input = decimal_string(self.opacity_preview as u64);
        self.opacity_preview
    }

    /// Takes `input` as the field's text when it is at most three ASCII
    /// digits; anything else leaves the field as it was.
    pub fn replace_input(&mut self, input: String)
        ensures
            acceptable_input(input@) ==> final(self).opacity_input@ == input@,
            !acceptable_input(input@) ==> final(self).opacity_input@ == old(
                self,
            ).opacity_input@,
            final(self).opacity_preview == old(self).opacity_preview,
            final(self).opacity_popup_open == old(self).opacity_popup_open,
            final(self).opacity_dragging == old(self).opacity_dragging,
            final(self).opacity_input_focused == old(self).opacity_input_focused,
    {
        let mut acceptable = true;
        let mut count: usize = 0;
        for c in it: input.as_str().chars()
            invariant
                it.seq() == input@,
                count <= 3,
                acceptable ==> count == it.index(),
                acceptable == (it.index() <= 3 && forall|k: int|
                    0 <= k < it.index() ==> is_ascii_digit(#[trigger] input@[k])),
        {
            if count >= 3 || !('0' <= c && c <= '9') {
                acceptable = false;
            } else {
                count += 1;
            }
        }
        if acceptable {
            self.opacity_input = input;
        }
    }

    /// Reads the input as a number, clamps it and previews it; `None`, with
    /// nothing changed, when the input is not a number.
    pub fn commit_input(&mut self) -> (r: Option<u8>)
        ensures
            match parse_u16(old(self).opacity_input@) {
                None => r is None && final(self).opacity_preview == old(self).opacity_preview
                    && final(self).opacity_input@ == old(self).opacity_input@,
                Some(v) => r == Some(clamp_opacity(v as int) as u8)
                    && final(self).opacity_preview == clamp_opacity(v as int)
                    && final(self).opacity_input@ == decimal_digits(
                    clamp_opacity(v as int) as nat,
                ),
            },
            final(self).opacity_popup_open == old(self).opacity_popup_open,
            final(self).opacity_dragging == old(self).opacity_dragging,
            final(self).opacity_input_focused == old(self).opacity_input_focused,
    {
        let parsed = match parse_opacity_input(self.opacity_input.as_str()) {
            Some(value) => value,
            None => return None,
        };
        let opacity: u8 = if parsed < 40 {
            40
        } else if parsed > 100 {
            100
        } else {
            parsed as u8
        };
        self.preview(opacity);
        Some(opacity)
    }
}

} // verus!
