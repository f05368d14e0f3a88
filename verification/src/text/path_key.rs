//! A comparison key for Windows path text: two paths that name the same
//! components get the same key, whichever separators they use.

use vstd::prelude::*;
use vstd::string::{StrSliceExecFns, StringExecFns};

use crate::text::encoding::push_char;

verus! {

/// `/` and `\` both separate components.
pub open spec fn is_separator(c: char) -> bool {
    c == '/' || c == '\\'
}

pub open spec fn is_ascii_letter(c: char) -> bool {
    ('a' <= c && c <= 'z') || ('A' <= c && c <= 'Z')
}

pub open spec fn ascii_upper(c: char) -> char {
    if 'a' <= c && c <= 'z' {
        ((c as u32) - 32) as char
    } else {
        c
    }
}

/// The state of a left-to-right scan of path text: the key of the finished
/// components, the component being read, how many leading separators were
/// seen (two or more count as two), whether the scan is still in them, and
/// whether the component being read is the first.
pub struct PathKeyState {
    pub key: Seq<char>,
    pub cur: Seq<char>,
    pub lead: nat,
    pub in_lead: bool,
    pub first: bool,
}

pub open spec fn initial_key_state() -> PathKeyState {
    PathKeyState { key: Seq::empty(), cur: Seq::empty(), lead: 0, in_lead: true, first: true }
}

/// Empty components (repeated or trailing separators) drop out, and so does
/// `.` unless it begins a relative path.
pub open spec fn keeps_component(cur: Seq<char>, lead: nat, first: bool) -> bool {
    cur.len() > 0 && !(cur == seq!['.'] && !(first && lead == 0))
}

/// A drive letter (`c:`) compares upper-cased.
pub open spec fn normalized_component(cur: Seq<char>, lead: nat, first: bool) -> Seq<char> {
    if first && lead == 0 && cur.len() >= 2 && cur[1] == ':' && is_ascii_letter(cur[0]) {
        seq![ascii_upper(cur[0])] + cur.drop_first()
    } else {
        cur
    }
}

/// Ends the component being read.
pub open spec fn flushed(st: PathKeyState) -> PathKeyState {
    PathKeyState {
        key: if keeps_component(st.cur, st.lead, st.first) {
            st.key + normalized_component(st.cur, st.lead, st.first) + seq!['\\']
        } else {
            st.key
        },
        cur: Seq::empty(),
        first: false,
        ..st
    }
}

pub open spec fn key_step(st: PathKeyState, c: char) -> PathKeyState {
    if st.in_lead && is_separator(c) {
        PathKeyState { lead: if st.lead < 2 { st.lead + 1 } else { 2 }, ..st }
    } else if is_separator(c) {
        PathKeyState { in_lead: false, ..flushed(st) }
    } else {
        PathKeyState { cur: st.cur.push(c), in_lead: false, ..st }
    }
}

pub open spec fn key_state_of(s: Seq<char>) -> PathKeyState
    decreases s.len(),
{
    if s.len() == 0 {
        initial_key_state()
    } else {
        key_step(key_state_of(s.drop_last()), s.last())
    }
}

pub open spec fn lead_marker(lead: nat) -> Seq<char> {
    if lead == 0 {
        Seq::empty()
    } else if lead == 1 {
        seq!['\\']
    } else {
        seq!['\\', '\\']
    }
}

/// The key of path text `s`: its leading separators (none, one, or two for
/// a UNC path), then each kept component followed by `\`.
pub open spec fn spec_path_key(s: Seq<char>) -> Seq<char> {
    let st = flushed(key_state_of(s));
    lead_marker(st.lead) + st.key
}

fn flush_component(key: &mut String, cur: &mut String, cur_len: usize, lead: u8, first: bool)
    requires
        cur_len == old(cur)@.len(),
        lead <= 2,
    ensures
        final(key)@ == (if keeps_component(old(cur)@, lead as nat, first) {
            old(key)@ + normalized_component(old(cur)@, lead as nat, first) + seq!['\\']
        } else {
            old(key)@
        }),
        final(cur)@ == Seq::<char>::empty(),
{
    let c = cur.as_str();
    let keep = cur_len > 0 && !(cur_len == 1 && c.get_char(0) == '.' && !(first && lead == 0));
    proof {
        if cur_len == 1 {
            if old(cur)@[0] == '.' {
                assert(old(cur)@ =~= seq!['.']);
            }
            assert(seq!['.'][0] == '.');
        }
    }
    if keep {
        let first_char = if cur_len > 0 { c.get_char(0) } else { ' ' };
        if first && lead == 0 && cur_len >= 2 && c.get_char(1) == ':' && (('a' <= first_char
            && first_char <= 'z') || ('A' <= first_char && first_char <= 'Z')) {
            let upper = if 'a' <= first_char && first_char <= 'z' {
                let code: u32 = first_char as u32;
                let raised: u8 = (code - 32) as u8;
                raised as char
            } else {
                first_char
            };
            push_char(key, upper);
            key.append(c.substring_char(1, cur_len));
            assert(old(cur)@.subrange(1, cur_len as int) =~= old(cur)@.drop_first());
        } else {
            key.append(c);
        }
        push_char(key, '\\');
        assert(final(key)@ =~= (if keeps_component(old(cur)@, lead as nat, first) {
            old(key)@ + normalized_component(old(cur)@, lead as nat, first) + seq!['\\']
        } else {
            old(key)@
        })) by {
            if first && lead == 0 && cur_len >= 2 && old(cur)@[1] == ':' && is_ascii_letter(
                old(cur)@[0],
            ) {
                assert(seq![ascii_upper(old(cur)@[0])] + old(cur)@.drop_first() =~= seq![
                    ascii_upper(old(cur)@[0]),
                ].add(old(cur)@.drop_first()));
            }
        }
    }
    *cur = String::new();
}

/// The comparison key of path text: `/` and `\` are both separators,
/// repeated and trailing separators and inner `.` components drop out, and a
/// drive letter compares upper-cased; other components compare exactly.
pub fn path_key(s: &str) -> (r: String)
    ensures
        r@ == spec_path_key(s@),
{
    let n = s.unicode_len();
    let mut key = String::new();
    let mut cur = String::new();
    let mut cur_len: usize = 0;
    let mut lead: u8 = 0;
    let mut in_lead = true;
    let mut first = true;
    let mut i: usize = 0;
    assert(s@.take(0) =~= Seq::<char>::empty());
    while i < n
        invariant
            i <= n,
            n == s@.len(),
            cur_len == cur@.len(),
            cur_len <= i,
            lead <= 2,
            ({
                let st = key_state_of(s@.take(i as int));
                &&& st.key == key@
                &&& st.cur == cur@
                &&& st.lead == lead as nat
                &&& st.in_lead == in_lead
                &&& st.first == first
            }),
        decreases n - i,
    {
        let c = s.get_char(i);
        proof {
            assert(s@.take(i + 1).drop_last() =~= s@.take(i as int));
            assert(s@.take(i + 1).last() == c);
        }
        if in_lead && (c == '/' || c == '\\') {
            if lead < 2 {
                lead += 1;
            }
        } else if c == '/' || c == '\\' {
            flush_component(&mut key, &mut cur, cur_len, lead, first);
            cur_len = 0;
            first = false;
            in_lead = false;
        } else {
            push_char(&mut cur, c);
            cur_len += 1;
            in_lead = false;
        }
        i += 1;
    }
    assert(s@.take(n as int) =~= s@);
    flush_component(&mut key, &mut cur, cur_len, lead, first);
    let mut out = String::new();
    if lead >= 1 {
        push_char(&mut out, '\\');
    }
    if lead >= 2 {
        push_char(&mut out, '\\');
    }
    out.append(key.as_str());
    assert(out@ =~= spec_path_key(s@));
    out
}

} // verus!
