//! The publication ledger of one image paste, and the moves that make each
//! published image agree with the latest references once the paste settles.

use vstd::prelude::*;
use vstd::utf8::encode_utf8;

use crate::assets::storage::{ManagedAssetLocation, StoredAssetDisposition};
use crate::assets::transaction::AssetPasteError;
use crate::model::Generation;

verus! {

/// One image a paste published under `images/`.
#[derive(Debug, Clone, PartialEq, Eq)]
pub struct StoredAsset {
    pub name: String,
    pub disposition: StoredAssetDisposition,
}

/// Move the managed image `name` from one managed directory to the other.
#[derive(Debug, Clone, PartialEq, Eq)]
pub struct AssetEffect {
    pub name: String,
    pub from: ManagedAssetLocation,
    pub to: ManagedAssetLocation,
}

/// Every publication a paste performed, whether it completed or failed.
#[derive(Debug, Clone)]
pub struct AssetPasteRollback {
    pub stored: Vec<StoredAsset>,
}

/// A failed paste, with the publications it made before failing.
#[derive(Debug)]
pub struct AssetPasteFailure {
    pub expected_generation: Generation,
    pub error: AssetPasteError,
    pub rollback: AssetPasteRollback,
}

/// Byte-wise lexicographic order of two byte strings: the order of `String`.
pub open spec fn bytes_lt(a: Seq<u8>, b: Seq<u8>) -> bool
    decreases a.len(),
{
    if a.len() == 0 {
        b.len() > 0
    } else if b.len() == 0 {
        false
    } else if a[0] != b[0] {
        a[0] < b[0]
    } else {
        bytes_lt(a.drop_first(), b.drop_first())
    }
}

/// `a` sorts before `b` as Rust orders strings, by their UTF-8 bytes.
pub open spec fn name_lt(a: Seq<char>, b: Seq<char>) -> bool {
    bytes_lt(encode_utf8(a), encode_utf8(b))
}

/// Each name sorts strictly before the next, so none occurs twice.
pub open spec fn strictly_sorted(names: Seq<String>) -> bool {
    forall|i: int, j: int|
        0 <= i < j < names.len() ==> name_lt(#[trigger] names[i]@, #[trigger] names[j]@)
}

/// `name` is one of `names`.
pub open spec fn has_name(names: Seq<String>, name: Seq<char>) -> bool {
    exists|i: int| 0 <= i < names.len() && #[trigger] names[i]@ == name
}

/// `name` was published by one of the first `k` entries of `stored`.
pub open spec fn published_before(stored: Seq<StoredAsset>, k: int, name: Seq<char>) -> bool {
    exists|m: int| 0 <= m < k && #[trigger] stored[m].name@ == name
}

/// One of `effects` moves `name`.
pub open spec fn has_effect_for(effects: Seq<AssetEffect>, name: Seq<char>) -> bool {
    exists|i: int| 0 <= i < effects.len() && #[trigger] effects[i].name@ == name
}

/// The reference count of `name`: that of its first entry, or zero.
pub open spec fn reference_count_of(references: Seq<(String, usize)>, name: Seq<char>) -> nat
    decreases references.len(),
{
    if references.len() == 0 {
        0
    } else if references[0].0@ == name {
        references[0].1 as nat
    } else {
        reference_count_of(references.drop_first(), name)
    }
}

/// The move that makes `name` agree with `references`: a referenced image
/// comes back from the trash, an unreferenced one goes there.
pub open spec fn converging_move(references: Seq<(String, usize)>, name: Seq<char>) -> (
    ManagedAssetLocation,
    ManagedAssetLocation,
) {
    if reference_count_of(references, name) > 0 {
        (ManagedAssetLocation::Trash, ManagedAssetLocation::Images)
    } else {
        (ManagedAssetLocation::Images, ManagedAssetLocation::Trash)
    }
}

proof fn lemma_bytes_lt_irreflexive(a: Seq<u8>)
    ensures
        !bytes_lt(a, a),
    decreases a.len(),
{
    if a.len() > 0 {
        lemma_bytes_lt_irreflexive(a.drop_first());
    }
}

proof fn lemma_bytes_lt_transitive(a: Seq<u8>, b: Seq<u8>, c: Seq<u8>)
    requires
        bytes_lt(a, b),
        bytes_lt(b, c),
    ensures
        bytes_lt(a, c),
    decreases a.len(),
{
    if a.len() > 0 && a[0] == b[0] && b[0] == c[0] {
        lemma_bytes_lt_transitive(a.drop_first(), b.drop_first(), c.drop_first());
    }
}

proof fn lemma_bytes_lt_total(a: Seq<u8>, b: Seq<u8>)
    requires
        a != b,
    ensures
        bytes_lt(a, b) || bytes_lt(b, a),
    decreases a.len(),
{
    if a.len() > 0 && b.len() > 0 && a[0] == b[0] {
        if a.drop_first() == b.drop_first() {
            assert(a.drop_first().len() == a.len() - 1);
            assert(b.drop_first().len() == b.len() - 1);
            assert(a.len() == b.len());
            assert(a =~= b) by {
                assert forall|i: int| 0 <= i < a.len() implies a[i] == b[i] by {
                    if i > 0 {
                        assert(a[i] == a.drop_first()[i - 1]);
                        assert(b[i] == b.drop_first()[i - 1]);
                    }
                }
            }
        }
        lemma_bytes_lt_total(a.drop_first(), b.drop_first());
    } else if a.len() == 0 && b.len() == 0 {
        assert(a =~= b);
    }
}

/// Distinct names have distinct encodings, so one of them sorts first.
proof fn lemma_name_lt_total(a: Seq<char>, b: Seq<char>)
    requires
        a != b,
    ensures
        name_lt(a, b) || name_lt(b, a),
{
    vstd::utf8::encode_utf8_decode_utf8(a);
    vstd::utf8::encode_utf8_decode_utf8(b);
    lemma_bytes_lt_total(encode_utf8(a), encode_utf8(b));
}

fn bytes_less(a: &[u8], b: &[u8]) -> (r: bool)
    ensures
        r == bytes_lt(a@, b@),
{
    let mut i: usize = 0;
    assert(a@.skip(0) =~= a@);
    assert(b@.skip(0) =~= b@);
    while i < a.len() && i < b.len()
        invariant
            i <= a@.len(),
            i <= b@.len(),
            bytes_lt(a@, b@) == bytes_lt(a@.skip(i as int), b@.skip(i as int)),
        decreases a@.len() - i,
    {
        if a[i] != b[i] {
            return a[i] < b[i];
        }
        assert(a@.skip(i as int).drop_first() =~= a@.skip(i + 1));
        assert(b@.skip(i as int).drop_first() =~= b@.skip(i + 1));
        i += 1;
    }
    a.len() < b.len()
}

fn name_less(a: &String, b: &String) -> (r: bool)
    ensures
        r == name_lt(a@, b@),
{
    bytes_less(a.as_str().as_bytes(), b.as_str().as_bytes())
}

/// Adds `name` to a strictly sorted list of names, unless it is there.
fn insert_name(names: &mut Vec<String>, name: &String)
    requires
        strictly_sorted(old(names)@),
    ensures
        strictly_sorted(final(names)@),
        forall|x: Seq<char>|
            #[trigger] has_name(final(names)@, x) <==> (has_name(old(names)@, x) || x == name@),
{
    let mut p: usize = 0;
    let mut found: bool = false;
    while !found && p < names.len()
        invariant
            p <= names@.len(),
            forall|i: int| 0 <= i < p ==> name_lt(#[trigger] names@[i]@, name@),
            found ==> p < names@.len() && !name_lt(names@[p as int]@, name@),
        decreases names@.len() - p + (if found { 0int } else { 1int }),
    {
        if name_less(&names[p], name) {
            p += 1;
        } else {
            found = true;
        }
    }
    if p < names.len() && names[p] == *name {
        assert(names@[p as int]@ == name@);
        return;
    }
    let ghost before = names@;
    proof {
        if p < before.len() {
            lemma_name_lt_total(before[p as int]@, name@);
            assert forall|j: int| p <= j < before.len() implies name_lt(
                name@,
                #[trigger] before[j]@,
            ) by {
                if j > p {
                    lemma_bytes_lt_transitive(
                        encode_utf8(name@),
                        encode_utf8(before[p as int]@),
                        encode_utf8(before[j]@),
                    );
                }
            }
        }
    }
    names.insert(p, name.clone());
    proof {
        let after = names@;
        assert(after =~= before.insert(p as int, after[p as int]));
        assert forall|i: int, j: int| 0 <= i < j < after.len() implies name_lt(
            #[trigger] after[i]@,
            #[trigger] after[j]@,
        ) by {
            if i < p && j == p {
            } else if i < p && j > p {
                assert(after[j] == before[j - 1]);
                assert(name_lt(before[i]@, before[j - 1]@));
            } else if i < p && j < p {
                assert(after[i] == before[i]);
                assert(after[j] == before[j]);
            } else if i == p {
                assert(after[j] == before[j - 1]);
            } else {
                assert(after[i] == before[i - 1]);
                assert(after[j] == before[j - 1]);
            }
        }
        assert forall|x: Seq<char>|
            #[trigger] has_name(after, x) <==> (has_name(before, x) || x == name@) by {
            if has_name(after, x) {
                let i = choose|i: int| 0 <= i < after.len() && #[trigger] after[i]@ == x;
                if i > p {
                    assert(before[i - 1]@ == x);
                } else if i < p {
                    assert(before[i]@ == x);
                }
            }
            if has_name(before, x) {
                let i = choose|i: int| 0 <= i < before.len() && #[trigger] before[i]@ == x;
                if i >= p {
                    assert(after[i + 1]@ == x);
                } else {
                    assert(after[i]@ == x);
                }
            }
            if x == name@ {
                assert(after[p as int]@ == x);
            }
        }
    }
}

/// The reference count of `name` in `references`, by its first entry.
fn reference_count(references: &Vec<(String, usize)>, name: &String) -> (r: usize)
    ensures
        r as nat == reference_count_of(references@, name@),
{
    let mut i: usize = 0;
    assert(references@.subrange(0, references@.len() as int) =~= references@);
    while i < references.len()
        invariant
            i <= references@.len(),
            reference_count_of(references@, name@) == reference_count_of(
                references@.subrange(i as int, references@.len() as int),
                name@,
            ),
        decreases references@.len() - i,
    {
        proof {
            let rest = references@.subrange(i as int, references@.len() as int);
            assert(rest.drop_first() =~= references@.subrange(i + 1, references@.len() as int));
            assert(rest[0] == references@[i as int]);
        }
        if references[i].0 == *name {
            return references[i].1;
        }
        i += 1;
    }
    assert(references@.subrange(i as int, references@.len() as int) =~= Seq::<
        (String, usize),
    >::empty());
    0
}

impl AssetPasteRollback {
    /// The moves that make every image this paste published agree with the
    /// latest references: one per distinct name, in name order. A referenced
    /// image is restored from the trash and an unreferenced one is trashed,
    /// so no earlier decision is replayed against newer references.
    /// `references` pairs each referenced name with its count; a name absent
    /// from it counts zero.
    pub fn convergence_effects(&self, references: &Vec<(String, usize)>) -> (r: Vec<AssetEffect>)
        ensures
            forall|i: int, j: int|
                0 <= i < j < r@.len() ==> name_lt(#[trigger] r@[i].name@, #[trigger] r@[j].name@),
            forall|i: int|
                0 <= i < r@.len() ==> published_before(
                    self.stored@,
                    self.stored@.len() as int,
                    #[trigger] r@[i].name@,
                ),
            forall|k: int|
                0 <= k < self.stored@.len() ==> has_effect_for(r@, #[trigger] self.stored@[k].name@),
            forall|i: int|
                0 <= i < r@.len() ==> ((#[trigger] r@[i]).from, r@[i].to) == converging_move(
                    references@,
                    r@[i].name@,
                ),
    {
        let mut names: Vec<String> = Vec::new();
        let mut k: usize = 0;
        while k < self.stored.len()
            invariant
                k <= self.stored@.len(),
                strictly_sorted(names@),
                forall|x: Seq<char>|
                    #[trigger] has_name(names@, x) <==> published_before(self.stored@, k as int, x),
            decreases self.stored@.len() - k,
        {
            insert_name(&mut names, &self.stored[k].name);
            proof {
                assert forall|x: Seq<char>|
                    #[trigger] has_name(names@, x) <==> published_before(
                        self.stored@,
                        k + 1,
                        x,
                    ) by {
                    if x == self.stored@[k as int].name@ {
                        assert(published_before(self.stored@, k + 1, x));
                    }
                    if published_before(self.stored@, k + 1, x) {
                        let m = choose|m: int|
                            0 <= m < k + 1 && #[trigger] self.stored@[m].name@ == x;
                        if m < k {
                            assert(published_before(self.stored@, k as int, x));
                        }
                    }
                    if published_before(self.stored@, k as int, x) {
                        let m = choose|m: int| 0 <= m < k && #[trigger] self.stored@[m].name@ == x;
                        assert(0 <= m < k + 1 && self.stored@[m].name@ == x);
                    }
                }
            }
            k += 1;
        }
        let mut effects: Vec<AssetEffect> = Vec::new();
        let mut i: usize = 0;
        while i < names.len()
            invariant
                i <= names@.len(),
                effects@.len() == i,
                forall|j: int| 0 <= j < i ==> (#[trigger] effects@[j]).name@ == names@[j]@,
                forall|j: int|
                    0 <= j < i ==> ((#[trigger] effects@[j]).from, effects@[j].to)
                        == converging_move(references@, effects@[j].name@),
            decreases names@.len() - i,
        {
            let referenced = reference_count(references, &names[i]) > 0;
            let (from, to) = if referenced {
                (ManagedAssetLocation::Trash, ManagedAssetLocation::Images)
            } else {
                (ManagedAssetLocation::Images, ManagedAssetLocation::Trash)
            };
            effects.push(AssetEffect { name: names[i].clone(), from, to });
            i += 1;
        }
        proof {
            assert forall|a: int, b: int| 0 <= a < b < effects@.len() implies name_lt(
                #[trigger] effects@[a].name@,
                #[trigger] effects@[b].name@,
            ) by {
                assert(name_lt(names@[a]@, names@[b]@));
            }
            assert forall|a: int| 0 <= a < effects@.len() implies published_before(
                self.stored@,
                self.stored@.len() as int,
                #[trigger] effects@[a].name@,
            ) by {
                let x = names@[a]@;
                assert(has_name(names@, x));
                assert(published_before(self.stored@, k as int, x));
            }
            assert forall|m: int| 0 <= m < self.stored@.len() implies has_effect_for(
                effects@,
                #[trigger] self.stored@[m].name@,
            ) by {
                let x = self.stored@[m].name@;
                assert(published_before(self.stored@, k as int, x));
                assert(has_name(names@, x));
                let a = choose|a: int| 0 <= a < names@.len() && #[trigger] names@[a]@ == x;
                assert(effects@[a].name@ == x);
            }
        }
        effects
    }
}

impl Default for AssetPasteRollback {
    fn default() -> (r: Self)
        ensures
            r.stored@.len() == 0,
    {
        AssetPasteRollback { stored: Vec::new() }
    }
}

impl AssetPasteFailure {
    /// A failure that happened before anything was published.
    pub fn without_publication(expected_generation: Generation, error: AssetPasteError) -> (r:
        Self)
        ensures
            r.expected_generation == expected_generation,
            r.error == error,
            r.rollback.stored@.len() == 0,
    {
        AssetPasteFailure {
            expected_generation,
            error,
            rollback: AssetPasteRollback { stored: Vec::new() },
        }
    }
}

/// `references` has an entry for `name`.
pub open spec fn has_reference(references: Seq<(String, usize)>, name: Seq<char>) -> bool {
    exists|i: int| 0 <= i < references.len() && #[trigger] references[i].0@ == name
}

/// The reference count the runtime text and the durable note agree on for
/// one name: the larger of the two.
pub open spec fn merged_count(
    runtime: Seq<(String, usize)>,
    durable: Seq<(String, usize)>,
    name: Seq<char>,
) -> nat {
    let a = reference_count_of(runtime, name);
    let b = reference_count_of(durable, name);
    if a >= b {
        a
    } else {
        b
    }
}

proof fn lemma_absent_counts_zero(references: Seq<(String, usize)>, name: Seq<char>)
    requires
        !has_reference(references, name),
    ensures
        reference_count_of(references, name) == 0,
    decreases references.len(),
{
    if references.len() > 0 {
        assert(references[0].0@ != name);
        assert forall|i: int| 0 <= i < references.drop_first().len() implies #[trigger] references.drop_first()[i].0@ != name by {
            assert(references[i + 1].0@ != name);
        }
        lemma_absent_counts_zero(references.drop_first(), name);
    }
}

/// Counts depend only on the names' text and the counts.
proof fn lemma_count_congruent(a: Seq<(String, usize)>, b: Seq<(String, usize)>, name: Seq<char>)
    requires
        a.len() == b.len(),
        forall|j: int| 0 <= j < a.len() ==> a[j].0@ == b[j].0@ && a[j].1 == b[j].1,
    ensures
        reference_count_of(a, name) == reference_count_of(b, name),
        has_reference(a, name) == has_reference(b, name),
    decreases a.len(),
{
    if a.len() > 0 {
        lemma_count_congruent(a.drop_first(), b.drop_first(), name);
    }
    if has_reference(a, name) {
        let i = choose|i: int| 0 <= i < a.len() && #[trigger] a[i].0@ == name;
        assert(b[i].0@ == name);
    }
    if has_reference(b, name) {
        let i = choose|i: int| 0 <= i < b.len() && #[trigger] b[i].0@ == name;
        assert(a[i].0@ == name);
    }
}

/// In `a + b` the entries of `a` come first.
proof fn lemma_count_concat(a: Seq<(String, usize)>, b: Seq<(String, usize)>, name: Seq<char>)
    ensures
        reference_count_of(a + b, name) == if has_reference(a, name) {
            reference_count_of(a, name)
        } else {
            reference_count_of(b, name)
        },
    decreases a.len(),
{
    if a.len() == 0 {
        assert(a + b =~= b);
    } else {
        assert((a + b).drop_first() =~= a.drop_first() + b);
        lemma_count_concat(a.drop_first(), b, name);
        if a[0].0@ != name {
            if has_reference(a, name) {
                let i = choose|i: int| 0 <= i < a.len() && #[trigger] a[i].0@ == name;
                assert(a.drop_first()[i - 1].0@ == name);
            }
            if has_reference(a.drop_first(), name) {
                let i = choose|i: int| 0 <= i < a.drop_first().len() && #[trigger] a.drop_first()[i].0@ == name;
                assert(a[i + 1].0@ == name);
            }
        } else {
            assert(a[0].0@ == name);
        }
    }
}

/// Raising each runtime entry to the durable count of its name.
proof fn lemma_raised_counts(
    m: Seq<(String, usize)>,
    runtime: Seq<(String, usize)>,
    durable: Seq<(String, usize)>,
    name: Seq<char>,
)
    requires
        m.len() == runtime.len(),
        forall|j: int|
            0 <= j < m.len() ==> m[j].0@ == runtime[j].0@ && m[j].1 as nat == merged_count(
                runtime.subrange(j, j + 1),
                durable,
                runtime[j].0@,
            ),
    ensures
        has_reference(m, name) == has_reference(runtime, name),
        has_reference(runtime, name) ==> reference_count_of(m, name) == merged_count(
            runtime,
            durable,
            name,
        ),
    decreases m.len(),
{
    if m.len() > 0 {
        assert forall|j: int| 0 <= j < m.drop_first().len() implies m.drop_first()[j].0@
            == runtime.drop_first()[j].0@ && m.drop_first()[j].1 as nat == merged_count(
            runtime.drop_first().subrange(j, j + 1),
            durable,
            runtime.drop_first()[j].0@,
        ) by {
            assert(runtime.drop_first().subrange(j, j + 1) =~= runtime.subrange(j + 1, j + 2));
        }
        lemma_raised_counts(m.drop_first(), runtime.drop_first(), durable, name);
        let one = runtime.subrange(0, 1);
        assert(one.drop_first() =~= Seq::<(String, usize)>::empty());
        if has_reference(m, name) {
            let i = choose|i: int| 0 <= i < m.len() && #[trigger] m[i].0@ == name;
            assert(runtime[i].0@ == name);
            if i > 0 {
                assert(m.drop_first()[i - 1].0@ == name);
            }
        }
        if has_reference(runtime, name) {
            let i = choose|i: int| 0 <= i < runtime.len() && #[trigger] runtime[i].0@ == name;
            assert(m[i].0@ == name);
            if i > 0 {
                assert(runtime.drop_first()[i - 1].0@ == name);
            }
        }
    }
}

/// Merges the reference counts of the runtime text with those scanned from
/// the durable note: each name counts as the larger of its two counts, so a
/// name referenced by either is kept.
pub fn merge_reference_counts(
    runtime: &Vec<(String, usize)>,
    durable: &Vec<(String, usize)>,
) -> (r: Vec<(String, usize)>)
    ensures
        forall|name: Seq<char>|
            #[trigger] reference_count_of(r@, name) == merged_count(runtime@, durable@, name),
{
    let mut out: Vec<(String, usize)> = Vec::new();
    let mut i: usize = 0;
    while i < runtime.len()
        invariant
            i <= runtime@.len(),
            out@.len() == i,
            forall|j: int|
                0 <= j < i ==> out@[j].0@ == runtime@[j].0@ && out@[j].1 as nat == merged_count(
                    runtime@.subrange(j, j + 1),
                    durable@,
                    runtime@[j].0@,
                ),
        decreases runtime@.len() - i,
    {
        let own = runtime[i].1;
        let other = reference_count(durable, &runtime[i].0);
        let raised = if own >= other {
            own
        } else {
            other
        };
        proof {
            let one = runtime@.subrange(i as int, i + 1);
            assert(one[0] == runtime@[i as int]);
            assert(one.drop_first() =~= Seq::<(String, usize)>::empty());
        }
        out.push((runtime[i].0.clone(), raised));
        i += 1;
    }
    let ghost raised_part = out@;
    let mut k: usize = 0;
    while k < durable.len()
        invariant
            k <= durable@.len(),
            out@.len() == raised_part.len() + k,
            out@.subrange(0, raised_part.len() as int) == raised_part,
            forall|j: int|
                0 <= j < k ==> out@[raised_part.len() + j].0@ == durable@[j].0@ && out@[raised_part.len()
                    + j].1 == durable@[j].1,
        decreases durable@.len() - k,
    {
        out.push((durable[k].0.clone(), durable[k].1));
        proof {
            assert(out@.subrange(0, raised_part.len() as int) =~= raised_part);
        }
        k += 1;
    }
    proof {
        let tail = out@.subrange(raised_part.len() as int, out@.len() as int);
        assert(out@ =~= raised_part + tail);
        assert forall|name: Seq<char>|
            #[trigger] reference_count_of(out@, name) == merged_count(runtime@, durable@, name) by {
            lemma_count_concat(raised_part, tail, name);
            lemma_count_congruent(tail, durable@, name);
            lemma_raised_counts(raised_part, runtime@, durable@, name);
            if !has_reference(runtime@, name) {
                lemma_absent_counts_zero(runtime@, name);
            }
        }
    }
    out
}

} // verus!
