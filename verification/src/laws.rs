//! The collection's laws, stated over the abstract operations that the
//! executable methods are specified against.

use vstd::prelude::*;
use crate::collection::{spec_add_default, spec_remove_at, spec_keys_unique, has_key,
    index_of_key, SpecKey};

verus! {

/// One editing step, for stating laws over arbitrary edit histories.
pub enum CollectionOp {
    /// An `add_default` with some fresh default handle.
    Add { fresh: u64 },
    /// A `remove_at` at some position.
    Remove { position: int },
}

/// One step applied to the entries and, in parallel, to a provenance
/// sequence that records for every current position which position of the
/// original state it came from (negative for entries added since).
pub open spec fn apply_op_prov(
    s: Seq<(SpecKey, u64)>,
    prov: Seq<int>,
    k: SpecKey,
    op: CollectionOp,
) -> (Seq<(SpecKey, u64)>, Seq<int>) {
    match op {
        CollectionOp::Add { fresh } => {
            if has_key(s, k) {
                (spec_add_default(s, k, fresh).0, prov)
            } else {
                (spec_add_default(s, k, fresh).0, prov.push(-1))
            }
        },
        CollectionOp::Remove { position } => {
            if 0 <= position < s.len() {
                (spec_remove_at(s, position), prov.remove(position))
            } else {
                (spec_remove_at(s, position), prov)
            }
        },
    }
}

/// A whole edit history applied, first step first.
pub open spec fn apply_ops_prov(
    s: Seq<(SpecKey, u64)>,
    prov: Seq<int>,
    k: SpecKey,
    ops: Seq<CollectionOp>,
) -> (Seq<(SpecKey, u64)>, Seq<int>)
    decreases ops.len(),
{
    if ops.len() == 0 {
        (s, prov)
    } else {
        let step = apply_op_prov(s, prov, k, ops[0]);
        apply_ops_prov(step.0, step.1, k, ops.subrange(1, ops.len() as int))
    }
}

/// Provenance entries that point into the original state appear in
/// strictly increasing order of their original positions.
pub open spec fn originals_in_order(prov: Seq<int>) -> bool {
    forall|a: int, b: int|
        0 <= a < b < prov.len() && prov[a] >= 0 && prov[b] >= 0 ==> prov[a] < prov[b]
}

proof fn lemma_op_preserves_order(
    s: Seq<(SpecKey, u64)>,
    prov: Seq<int>,
    k: SpecKey,
    op: CollectionOp,
)
    requires
        prov.len() == s.len(),
        originals_in_order(prov),
    ensures
        apply_op_prov(s, prov, k, op).1.len() == apply_op_prov(s, prov, k, op).0.len(),
        originals_in_order(apply_op_prov(s, prov, k, op).1),
{
    match op {
        CollectionOp::Add { fresh } => {
            if has_key(s, k) {
                assert(spec_add_default(s, k, fresh).0.len() == s.len());
            } else {
                let p1 = prov.push(-1int);
                assert forall|a: int, b: int|
                    0 <= a < b < p1.len() && p1[a] >= 0 && p1[b] >= 0 implies p1[a] < p1[b] by {
                    if b < prov.len() {
                        assert(p1[a] == prov[a] && p1[b] == prov[b]);
                    } else {
                        assert(p1[b] == -1);
                    }
                }
            }
        },
        CollectionOp::Remove { position } => {
            if 0 <= position < s.len() {
                s.remove_ensures(position);
                prov.remove_ensures(position);
                let p1 = prov.remove(position);
                assert forall|a: int, b: int|
                    0 <= a < b < p1.len() && p1[a] >= 0 && p1[b] >= 0 implies p1[a] < p1[b] by {
                    let a0 = if a < position {
                        a
                    } else {
                        a + 1
                    };
                    let b0 = if b < position {
                        b
                    } else {
                        b + 1
                    };
                    assert(p1[a] == prov[a0] && p1[b] == prov[b0]);
                }
            }
        },
    }
}

/// Order preservation: whatever sequence of `add_default` and `remove_at`
/// steps is applied, the entries that survive from the original state still
/// appear in their original insertion order, and positions stay the dense
/// range `0 .. len` (the provenance stays exactly one record per position).
pub proof fn lemma_order_preservation(
    s: Seq<(SpecKey, u64)>,
    prov: Seq<int>,
    k: SpecKey,
    ops: Seq<CollectionOp>,
)
    requires
        prov.len() == s.len(),
        originals_in_order(prov),
    ensures
        apply_ops_prov(s, prov, k, ops).1.len() == apply_ops_prov(s, prov, k, ops).0.len(),
        originals_in_order(apply_ops_prov(s, prov, k, ops).1),
    decreases ops.len(),
{
    if ops.len() > 0 {
        lemma_op_preserves_order(s, prov, k, ops[0]);
        let step = apply_op_prov(s, prov, k, ops[0]);
        lemma_order_preservation(step.0, step.1, k, ops.subrange(1, ops.len() as int));
    }
}

/// `add_default` keeps keys unique, affects an in-range position, and
/// leaves the sentinel key present.
pub proof fn lemma_add_preserves_unique(s: Seq<(SpecKey, u64)>, k: SpecKey, fresh: u64)
    requires
        spec_keys_unique(s),
    ensures
        spec_keys_unique(spec_add_default(s, k, fresh).0),
        has_key(spec_add_default(s, k, fresh).0, k),
        0 <= spec_add_default(s, k, fresh).1 < spec_add_default(s, k, fresh).0.len(),
        spec_add_default(s, k, fresh).0[spec_add_default(s, k, fresh).1] == (k, fresh),
        spec_add_default(s, k, fresh).0.len() == if has_key(s, k) {
            s.len() as int
        } else {
            s.len() as int + 1
        },
{
    let t = spec_add_default(s, k, fresh).0;
    let pos = spec_add_default(s, k, fresh).1;
    if has_key(s, k) {
        let j = index_of_key(s, k);
        assert(0 <= j < s.len() && s[j].0 == k);
        assert(t == s.update(j, (k, fresh)));
        assert forall|a: int, b: int| 0 <= a < b < t.len() implies t[a].0 != t[b].0 by {
            assert(t[a].0 == s[a].0 && t[b].0 == s[b].0);
        }
        assert(t[pos].0 == k);
    } else {
        assert(t == s.push((k, fresh)));
        assert forall|a: int, b: int| 0 <= a < b < t.len() implies t[a].0 != t[b].0 by {
            if b == s.len() {
                assert(t[a].0 == s[a].0);
                assert(!has_key(s, k));
                assert(s[a].0 != k);
            } else {
                assert(t[a].0 == s[a].0 && t[b].0 == s[b].0);
            }
        }
        assert(t[pos].0 == k);
    }
}

/// Add idempotence on the sentinel key: after two `add_default` calls in a
/// row, exactly one entry carries the sentinel key, and the second call was
/// nothing but a value reset of the entry the first call affected: it
/// changed no key, added no entry and moved nothing.
pub proof fn lemma_add_idempotent(s: Seq<(SpecKey, u64)>, k: SpecKey, f1: u64, f2: u64)
    requires
        spec_keys_unique(s),
    ensures
        ({
            let s1 = spec_add_default(s, k, f1).0;
            let s2 = spec_add_default(s1, k, f2).0;
            let p2 = spec_add_default(s1, k, f2).1;
            &&& s2.len() == s1.len()
            &&& p2 == spec_add_default(s, k, f1).1
            &&& s2 == s1.update(p2, (k, f2))
            &&& has_key(s2, k)
            &&& (forall|a: int, b: int|
                0 <= a < s2.len() && 0 <= b < s2.len() && s2[a].0 == k && s2[b].0 == k ==> a == b)
        }),
{
    let s1 = spec_add_default(s, k, f1).0;
    let p1 = spec_add_default(s, k, f1).1;
    lemma_add_preserves_unique(s, k, f1);
    lemma_add_preserves_unique(s1, k, f2);
    let p2 = spec_add_default(s1, k, f2).1;
    assert(has_key(s1, k));
    assert(spec_add_default(s1, k, f2).0 == s1.update(index_of_key(s1, k), (k, f2)));
    let j = index_of_key(s1, k);
    assert(0 <= j < s1.len() && s1[j].0 == k);
    assert(s1[p1].0 == k);
    assert(j == p1);
    let s2 = spec_add_default(s1, k, f2).0;
    assert forall|a: int, b: int|
        0 <= a < s2.len() && 0 <= b < s2.len() && s2[a].0 == k && s2[b].0 == k implies a == b by {
        assert(spec_keys_unique(s2));
    }
}

/// Shift-removal correctness: removing position `i` from a collection of
/// length `n` yields length `n - 1`, entries before `i` are unchanged, and
/// every entry after `i` is now exactly one position lower.
pub proof fn lemma_shift_removal(s: Seq<(SpecKey, u64)>, i: int)
    requires
        0 <= i < s.len(),
    ensures
        spec_remove_at(s, i).len() == s.len() - 1,
        forall|j: int| 0 <= j < i ==> spec_remove_at(s, i)[j] == s[j],
        forall|j: int| i <= j < s.len() - 1 ==> spec_remove_at(s, i)[j] == s[j + 1],
{
    s.remove_ensures(i);
}

} // verus!
