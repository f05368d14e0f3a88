//! Stable monitor identities: the EDID-derived identity of an active display
//! when the platform has one, otherwise the case-folded GDI device name.

use vstd::prelude::*;
use vstd::string::{StrSliceExecFns, StringExecFns};

use crate::assets::path::{ascii_lower, ascii_lower_char};
use crate::text::encoding::{hex_digit, hex_digit_char, push_char};
use crate::window::geometry::MonitorIdentity;

verus! {

/// One active display as the platform enumerates it.
#[derive(Debug, Clone)]
pub struct ActiveDisplay {
    pub gdi_device_name: String,
    pub stable_identity: Option<[u8; 32]>,
}

/// The Unicode upper case of `s`, as `str::to_uppercase` computes it.
pub uninterp spec fn uppercase(s: Seq<char>) -> Seq<char>;

/// Calls `str::to_uppercase`. Its result is a function of the text alone;
/// the Unicode case tables that decide it are left to the name.
#[verifier::external_body]
fn to_uppercase(s: &str) -> (r: String)
    ensures
        r@ == uppercase(s@),
{
    s.to_uppercase()
}

/// `a` and `b` are equal once ASCII letters are folded to lower case.
pub open spec fn eq_ignore_ascii_case(a: Seq<char>, b: Seq<char>) -> bool {
    a.len() == b.len() && forall|i: int| 0 <= i < a.len() ==> ascii_lower(#[trigger] a[i]) == ascii_lower(b[i])
}

fn equal_ignoring_ascii_case(a: &str, b: &str) -> (r: bool)
    ensures
        r == eq_ignore_ascii_case(a@, b@),
{
    let n = a.unicode_len();
    if n != b.unicode_len() {
        return false;
    }
    let mut i: usize = 0;
    while i < n
        invariant
            i <= n,
            n == a@.len(),
            n == b@.len(),
            forall|k: int| 0 <= k < i ==> ascii_lower(#[trigger] a@[k]) == ascii_lower(b@[k]),
        decreases n - i,
    {
        if ascii_lower_char(a.get_char(i)) != ascii_lower_char(b.get_char(i)) {
            return false;
        }
        i += 1;
    }
    true
}

/// Lower-case hexadecimal of `bytes`, two digits per byte, high nibble first.
pub open spec fn hex_of(bytes: Seq<u8>) -> Seq<char>
    decreases bytes.len(),
{
    if bytes.len() == 0 {
        Seq::empty()
    } else {
        hex_of(bytes.drop_last()) + seq![
            hex_digit((bytes.last() / 16) as int, false),
            hex_digit((bytes.last() % 16) as int, false),
        ]
    }
}

/// The 64-digit lower-case hexadecimal form of a 32-byte identity.
pub fn hex_identity(bytes: [u8; 32]) -> (r: String)
    ensures
        r@ == hex_of(bytes@),
{
    let mut output = String::new();
    let mut i: usize = 0;
    while i < 32
        invariant
            i <= 32,
            bytes@.len() == 32,
            output@ == hex_of(bytes@.take(i as int)),
        decreases 32 - i,
    {
        let byte = bytes[i];
        push_char(&mut output, hex_digit_char(byte / 16, false));
        push_char(&mut output, hex_digit_char(byte % 16, false));
        proof {
            assert(bytes@.take(i + 1).drop_last() =~= bytes@.take(i as int));
            assert(bytes@.take(i + 1).last() == byte);
            assert(output@ =~= hex_of(bytes@.take(i + 1)));
        }
        i += 1;
    }
    assert(bytes@.take(32) =~= bytes@);
    output
}

/// The first display whose GDI name equals `native` ignoring ASCII case.
pub open spec fn first_matching(active: Seq<ActiveDisplay>, native: Seq<char>) -> Option<int> {
    if exists|i: int| 0 <= i < active.len() && eq_ignore_ascii_case(#[trigger] active[i].gdi_device_name@, native) {
        Some(choose|i: int| 0 <= i < active.len() && eq_ignore_ascii_case(#[trigger] active[i].gdi_device_name@, native)
            && forall|j: int| 0 <= j < i ==> !eq_ignore_ascii_case(#[trigger] active[j].gdi_device_name@, native))
    } else {
        None
    }
}

/// The identity of the monitor named `native`: the hexadecimal stable
/// identity of the first matching active display when it has one, otherwise
/// `gdi:` followed by the upper-cased name.
pub open spec fn spec_identity_for_native(active: Seq<ActiveDisplay>, native: Seq<char>) -> Seq<char> {
    match first_matching(active, native) {
        Some(i) => match active[i].stable_identity {
            Some(bytes) => hex_of(bytes@),
            None => seq!['g', 'd', 'i', ':'] + uppercase(native),
        },
        None => seq!['g', 'd', 'i', ':'] + uppercase(native),
    }
}

pub fn identity_for_native(active: &[ActiveDisplay], native: &str) -> (r: MonitorIdentity)
    ensures
        r.0@ == spec_identity_for_native(active@, native@),
{
    let mut i: usize = 0;
    let mut found: Option<usize> = None;
    while i < active.len()
        invariant
            i <= active@.len(),
            found is None ==> forall|j: int| 0 <= j < i ==> !eq_ignore_ascii_case(
                #[trigger] active@[j].gdi_device_name@,
                native@,
            ),
            found matches Some(k) ==> k < active@.len() && eq_ignore_ascii_case(
                active@[k as int].gdi_device_name@,
                native@,
            ) && forall|j: int| 0 <= j < k ==> !eq_ignore_ascii_case(
                #[trigger] active@[j].gdi_device_name@,
                native@,
            ),
        decreases active@.len() - i,
    {
        if found.is_none() && equal_ignoring_ascii_case(active[i].gdi_device_name.as_str(), native) {
            found = Some(i);
        }
        i += 1;
    }
    proof {
        match found {
            Some(k) => {
                let c = choose|m: int|
                    0 <= m < active@.len() && eq_ignore_ascii_case(
                        #[trigger] active@[m].gdi_device_name@,
                        native@,
                    ) && forall|j: int|
                        0 <= j < m ==> !eq_ignore_ascii_case(
                            #[trigger] active@[j].gdi_device_name@,
                            native@,
                        );
                assert(c == k as int) by {
                    if c < k as int {
                        assert(!eq_ignore_ascii_case(active@[c].gdi_device_name@, native@));
                    } else if c > k as int {
                        assert(!eq_ignore_ascii_case(active@[k as int].gdi_device_name@, native@));
                    }
                }
            },
            None => {},
        }
    }
    let stable = match found {
        Some(k) => active[k].stable_identity,
        None => None,
    };
    match stable {
        Some(bytes) => MonitorIdentity(hex_identity(bytes)),
        None => {
            let mut text = String::from_str("gdi:");
            proof {
                reveal_strlit("gdi:");
            }
            text.append(to_uppercase(native).as_str());
            MonitorIdentity(text)
        },
    }
}

} // verus!
