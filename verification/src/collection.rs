//! The ordered keyed collection: an insertion-order-preserving mapping from
//! a key in one of three domains (bare integer, asset-tagged integer, text)
//! to a `u64` node handle, resolved against an arena owned by the caller.
//!
//! The collection is backed by `indexmap::IndexMap` through the trusted
//! wrappers of `imap`; everything above those wrappers is verified.  Its
//! abstract state is a sequence of (key, handle) pairs in iteration order,
//! with unique keys; removal uses shift semantics, so positions are always
//! the dense range `0 .. len`.

use vstd::prelude::*;
use indexmap::IndexMap;
use crate::imap::{
    int_entries, str_entries, int_keys_unique, str_keys_unique, int_map_new, str_map_new,
    int_map_len, str_map_len, int_map_insert_full, str_map_insert_full,
    int_map_shift_remove_index, str_map_shift_remove_index, int_map_replace_index,
    str_map_replace_index, int_map_pairs, str_map_pairs,
};
use crate::war_asset::WarAsset;
use crate::value::CallbackType;

verus! {

/// The abstract form of a key, one constructor per key domain.
pub enum SpecKey {
    I32(i32),
    Asset(i32),
    Str(Seq<char>),
}

/// Which of the three key domains a collection uses.
#[derive(Clone, Copy, PartialEq, Eq, Structural, Debug)]
pub enum KeyDomain {
    I32,
    WarAsset,
    Str,
}

/// A key handed out by iteration, in executable form.
pub enum EntryKey {
    I32 { value: i32 },
    Asset { asset: WarAsset },
    Str { string: String },
}

impl View for EntryKey {
    type V = SpecKey;

    open spec fn view(&self) -> SpecKey {
        match self {
            EntryKey::I32 { value } => SpecKey::I32(*value),
            EntryKey::Asset { asset } => SpecKey::Asset(asset.0),
            EntryKey::Str { string } => SpecKey::Str(string@),
        }
    }
}

/// The abstract key of an integer entry, in either integer domain.
pub open spec fn int_key(x: i32, asset: bool) -> SpecKey {
    if asset {
        SpecKey::Asset(x)
    } else {
        SpecKey::I32(x)
    }
}

/// The abstract contents of an integer-keyed map, in either integer domain.
pub open spec fn int_view(s: Seq<(i32, u64)>, asset: bool) -> Seq<(SpecKey, u64)> {
    Seq::new(s.len(), |i: int| (int_key(s[i].0, asset), s[i].1))
}

/// The abstract contents of a string-keyed map.
pub open spec fn str_view(s: Seq<(Seq<char>, u64)>) -> Seq<(SpecKey, u64)> {
    Seq::new(s.len(), |i: int| (SpecKey::Str(s[i].0), s[i].1))
}

/// Whether some entry of `s` has key `k`.
pub open spec fn has_key(s: Seq<(SpecKey, u64)>, k: SpecKey) -> bool {
    exists|j: int| 0 <= j < s.len() && s[j].0 == k
}

/// The position of the entry with key `k` (meaningful when keys are unique).
pub open spec fn index_of_key(s: Seq<(SpecKey, u64)>, k: SpecKey) -> int {
    choose|j: int| 0 <= j < s.len() && s[j].0 == k
}

/// Unique keys, at the abstract level.
pub open spec fn spec_keys_unique(s: Seq<(SpecKey, u64)>) -> bool {
    forall|i: int, j: int| 0 <= i < j < s.len() ==> s[i].0 != s[j].0
}

/// What `add_default` does: a colliding sentinel key has its entry's value
/// reset to the fresh default in place; otherwise a new entry is appended.
/// The second component is the position of the affected entry.
pub open spec fn spec_add_default(s: Seq<(SpecKey, u64)>, k: SpecKey, fresh: u64) -> (
    Seq<(SpecKey, u64)>,
    int,
) {
    if has_key(s, k) {
        (s.update(index_of_key(s, k), (k, fresh)), index_of_key(s, k))
    } else {
        (s.push((k, fresh)), s.len() as int)
    }
}

/// What `remove_at` does: shift removal inside the range, no-op outside it.
pub open spec fn spec_remove_at(s: Seq<(SpecKey, u64)>, i: int) -> Seq<(SpecKey, u64)> {
    if 0 <= i < s.len() {
        s.remove(i)
    } else {
        s
    }
}

/// What `rekey_at` does once the payload has matched the key domain: the
/// key at `i` is replaced, keeping the value and the position; a stale
/// position or a key already used elsewhere leaves the collection unchanged.
pub open spec fn spec_rekey_at(s: Seq<(SpecKey, u64)>, i: int, k: SpecKey) -> (
    Seq<(SpecKey, u64)>,
    bool,
) {
    if !(0 <= i < s.len()) {
        (s, false)
    } else if exists|j: int| 0 <= j < s.len() && j != i && s[j].0 == k {
        (s, false)
    } else {
        (s.update(i, (k, s[i].1)), true)
    }
}

/// The ordered keyed collection, over one of the three key domains.
pub enum IndexMapKeyType {
    I32 { map: IndexMap<i32, u64> },
    WarAsset { map: IndexMap<i32, u64> },
    Str { map: IndexMap<String, u64> },
}

impl View for IndexMapKeyType {
    type V = Seq<(SpecKey, u64)>;

    open spec fn view(&self) -> Seq<(SpecKey, u64)> {
        match self {
            IndexMapKeyType::I32 { map } => int_view(int_entries(*map), false),
            IndexMapKeyType::WarAsset { map } => int_view(int_entries(*map), true),
            IndexMapKeyType::Str { map } => str_view(str_entries(*map)),
        }
    }
}

impl IndexMapKeyType {
    /// The collection's key domain.
    pub open spec fn domain(self) -> KeyDomain {
        match self {
            IndexMapKeyType::I32 { .. } => KeyDomain::I32,
            IndexMapKeyType::WarAsset { .. } => KeyDomain::WarAsset,
            IndexMapKeyType::Str { .. } => KeyDomain::Str,
        }
    }

    /// The collection's invariant: keys are unique.
    pub open spec fn wf(self) -> bool {
        match self {
            IndexMapKeyType::I32 { map } => int_keys_unique(int_entries(map)),
            IndexMapKeyType::WarAsset { map } => int_keys_unique(int_entries(map)),
            IndexMapKeyType::Str { map } => str_keys_unique(str_entries(map)),
        }
    }

    /// The domain's sentinel default key: `-1` for bare integers, the
    /// zero-valued tagged identifier for assets, empty text for strings.
    pub open spec fn sentinel(self) -> SpecKey {
        match self {
            IndexMapKeyType::I32 { .. } => SpecKey::I32(-1i32),
            IndexMapKeyType::WarAsset { .. } => SpecKey::Asset(0),
            IndexMapKeyType::Str { .. } => SpecKey::Str(Seq::empty()),
        }
    }

    /// An empty bare-integer-keyed collection.
    pub fn new_i32() -> (r: Self)
        ensures
            r@ == Seq::<(SpecKey, u64)>::empty(),
            r.wf(),
            r.domain() == KeyDomain::I32,
    {
        let r = IndexMapKeyType::I32 { map: int_map_new() };
        proof {
            assert(r@ =~= Seq::<(SpecKey, u64)>::empty());
        }
        r
    }

    /// An empty asset-keyed collection.
    pub fn new_war_asset() -> (r: Self)
        ensures
            r@ == Seq::<(SpecKey, u64)>::empty(),
            r.wf(),
            r.domain() == KeyDomain::WarAsset,
    {
        let r = IndexMapKeyType::WarAsset { map: int_map_new() };
        proof {
            assert(r@ =~= Seq::<(SpecKey, u64)>::empty());
        }
        r
    }

    /// An empty string-keyed collection.
    pub fn new_str() -> (r: Self)
        ensures
            r@ == Seq::<(SpecKey, u64)>::empty(),
            r.wf(),
            r.domain() == KeyDomain::Str,
    {
        let r = IndexMapKeyType::Str { map: str_map_new() };
        proof {
            assert(r@ =~= Seq::<(SpecKey, u64)>::empty());
        }
        r
    }

    /// The number of entries.
    pub fn len(&self) -> (n: usize)
        ensures
            n == self@.len(),
    {
        match self {
            IndexMapKeyType::I32 { map } => int_map_len(map),
            IndexMapKeyType::WarAsset { map } => int_map_len(map),
            IndexMapKeyType::Str { map } => str_map_len(map),
        }
    }

    /// Append an entry keyed by the domain's sentinel with the given fresh
    /// default handle as its value; if the sentinel key is already present,
    /// reset that entry's value to the fresh default instead.  Returns the
    /// position of the affected entry.
    pub fn add_default(&mut self, fresh: u64) -> (position: usize)
        requires
            old(self).wf(),
        ensures
            final (self).wf(),
            final (self).domain() == old(self).domain(),
            final (self)@ == spec_add_default(old(self)@, old(self).sentinel(), fresh).0,
            position as int == spec_add_default(old(self)@, old(self).sentinel(), fresh).1,
    {
        match self {
            IndexMapKeyType::I32 { map } => {
                let ghost s0 = int_entries(*map);
                let position = int_map_insert_full(map, -1, fresh);
                proof {
                    lemma_int_add(s0, int_entries(*map), -1i32, fresh, position as int, false);
                }
                position
            },
            IndexMapKeyType::WarAsset { map } => {
                let ghost s0 = int_entries(*map);
                let position = int_map_insert_full(map, 0, fresh);
                proof {
                    lemma_int_add(s0, int_entries(*map), 0, fresh, position as int, true);
                }
                position
            },
            IndexMapKeyType::Str { map } => {
                let ghost s0 = str_entries(*map);
                let position = str_map_insert_full(map, String::new(), fresh);
                proof {
                    lemma_str_add(s0, str_entries(*map), Seq::empty(), fresh, position as int);
                }
                position
            },
        }
    }
}

/// The key that an edit payload denotes in a given key domain: integer
/// payloads rekey both integer domains (an asset key is entered as its bare
/// id), text payloads rekey the text domain, and nothing else matches.
pub open spec fn key_of_payload(d: KeyDomain, e: CallbackType) -> Option<SpecKey> {
    match (d, e) {
        (KeyDomain::I32, CallbackType::Int { value }) => Some(SpecKey::I32(value)),
        (KeyDomain::WarAsset, CallbackType::Int { value }) => Some(SpecKey::Asset(value)),
        (KeyDomain::Str, CallbackType::Str { string }) => Some(SpecKey::Str(string@)),
        _ => None,
    }
}

impl IndexMapKeyType {
    /// Remove the entry at `position` with shift semantics: later entries
    /// move down one position, keeping their order.  A stale position is a
    /// no-op.
    pub fn remove_at(&mut self, position: usize) -> (removed: bool)
        requires
            old(self).wf(),
        ensures
            final (self).wf(),
            final (self).domain() == old(self).domain(),
            final (self)@ == spec_remove_at(old(self)@, position as int),
            removed <==> (position as int) < old(self)@.len(),
    {
        match self {
            IndexMapKeyType::I32 { map } => {
                let ghost s0 = int_entries(*map);
                let removed = int_map_shift_remove_index(map, position);
                proof {
                    lemma_int_remove(s0, int_entries(*map), position as int, false);
                }
                removed.is_some()
            },
            IndexMapKeyType::WarAsset { map } => {
                let ghost s0 = int_entries(*map);
                let removed = int_map_shift_remove_index(map, position);
                proof {
                    lemma_int_remove(s0, int_entries(*map), position as int, true);
                }
                removed.is_some()
            },
            IndexMapKeyType::Str { map } => {
                let ghost s0 = str_entries(*map);
                let removed = str_map_shift_remove_index(map, position);
                proof {
                    lemma_str_remove(s0, str_entries(*map), position as int);
                }
                removed.is_some()
            },
        }
    }

    /// Replace only the key of the entry at `position`, keeping its value
    /// and its position.  A payload whose tag does not match the collection's
    /// key domain is dropped with no state change, as is a stale position or
    /// a key already used by another entry.
    pub fn rekey_at(&mut self, position: usize, new_key: CallbackType) -> (changed: bool)
        requires
            old(self).wf(),
        ensures
            final (self).wf(),
            final (self).domain() == old(self).domain(),
            key_of_payload(old(self).domain(), new_key) is None ==> final (self)@ == old(self)@
                && !changed,
            key_of_payload(old(self).domain(), new_key) matches Some(k) ==> final (self)@
                == spec_rekey_at(old(self)@, position as int, k).0 && changed == spec_rekey_at(
                old(self)@,
                position as int,
                k,
            ).1,
    {
        match (&mut *self, new_key) {
            (IndexMapKeyType::I32 { map }, CallbackType::Int { value }) => {
                let ghost s0 = int_entries(*map);
                let n = int_map_len(map);
                if position < n {
                    let ok = int_map_replace_index(map, position, value);
                    proof {
                        lemma_int_rekey(s0, int_entries(*map), position as int, value, ok, false);
                    }
                    ok
                } else {
                    false
                }
            },
            (IndexMapKeyType::WarAsset { map }, CallbackType::Int { value }) => {
                let ghost s0 = int_entries(*map);
                let n = int_map_len(map);
                if position < n {
                    let ok = int_map_replace_index(map, position, value);
                    proof {
                        lemma_int_rekey(s0, int_entries(*map), position as int, value, ok, true);
                    }
                    ok
                } else {
                    false
                }
            },
            (IndexMapKeyType::Str { map }, CallbackType::Str { string }) => {
                let ghost s0 = str_entries(*map);
                let n = str_map_len(map);
                if position < n {
                    let ghost key_view = string@;
                    let ok = str_map_replace_index(map, position, string);
                    proof {
                        lemma_str_rekey(s0, str_entries(*map), position as int, key_view, ok);
                    }
                    ok
                } else {
                    false
                }
            },
            _ => false,
        }
    }

    /// The (key, handle) pairs in iteration order: a finite, restartable
    /// walk of the current entries.
    pub fn entries(&self) -> (r: Vec<(EntryKey, u64)>)
        ensures
            r@.len() == self@.len(),
            forall|i: int|
                0 <= i < r@.len() ==> (#[trigger] r@[i]).0@ == self@[i].0 && r@[i].1
                    == self@[i].1,
    {
        match self {
            IndexMapKeyType::I32 { map } => {
                let pairs = int_map_pairs(map);
                let mut r: Vec<(EntryKey, u64)> = Vec::new();
                let mut idx: usize = 0;
                while idx < pairs.len()
                    invariant
                        idx <= pairs@.len(),
                        pairs@ == int_entries(*map),
                        r@.len() == idx,
                        forall|i: int|
                            0 <= i < idx ==> (#[trigger] r@[i]).0@ == int_view(pairs@, false)[i].0
                                && r@[i].1 == int_view(pairs@, false)[i].1,
                    decreases pairs@.len() - idx,
                {
                    let (k, v) = pairs[idx];
                    r.push((EntryKey::I32 { value: k }, v));
                    idx = idx + 1;
                }
                r
            },
            IndexMapKeyType::WarAsset { map } => {
                let pairs = int_map_pairs(map);
                let mut r: Vec<(EntryKey, u64)> = Vec::new();
                let mut idx: usize = 0;
                while idx < pairs.len()
                    invariant
                        idx <= pairs@.len(),
                        pairs@ == int_entries(*map),
                        r@.len() == idx,
                        forall|i: int|
                            0 <= i < idx ==> (#[trigger] r@[i]).0@ == int_view(pairs@, true)[i].0
                                && r@[i].1 == int_view(pairs@, true)[i].1,
                    decreases pairs@.len() - idx,
                {
                    let (k, v) = pairs[idx];
                    r.push((EntryKey::Asset { asset: WarAsset(k) }, v));
                    idx = idx + 1;
                }
                r
            },
            IndexMapKeyType::Str { map } => {
                let pairs = str_map_pairs(map);
                let mut r: Vec<(EntryKey, u64)> = Vec::new();
                let mut idx: usize = 0;
                while idx < pairs.len()
                    invariant
                        idx <= pairs@.len(),
                        pairs@.len() == str_entries(*map).len(),
                        forall|i: int|
                            0 <= i < pairs@.len() ==> ((#[trigger] pairs@[i]).0@, pairs@[i].1)
                                == str_entries(*map)[i],
                        r@.len() == idx,
                        forall|i: int|
                            0 <= i < idx ==> (#[trigger] r@[i]).0@ == str_view(
                                str_entries(*map),
                            )[i].0 && r@[i].1 == str_view(str_entries(*map))[i].1,
                    decreases pairs@.len() - idx,
                {
                    let p = &pairs[idx];
                    r.push((EntryKey::Str { string: p.0.clone() }, p.1));
                    idx = idx + 1;
                }
                r
            },
        }
    }
}

/// A well-formed collection has unique keys at the abstract level too, so
/// the laws stated over abstract entry sequences apply to every collection
/// value this module hands out.
pub proof fn lemma_wf_keys_unique(m: IndexMapKeyType)
    requires
        m.wf(),
    ensures
        spec_keys_unique(m@),
{
    match m {
        IndexMapKeyType::I32 { map } => {
            assert forall|a: int, b: int| 0 <= a < b < m@.len() implies m@[a].0 != m@[b].0 by {
                assert(int_entries(map)[a].0 != int_entries(map)[b].0);
            }
        },
        IndexMapKeyType::WarAsset { map } => {
            assert forall|a: int, b: int| 0 <= a < b < m@.len() implies m@[a].0 != m@[b].0 by {
                assert(int_entries(map)[a].0 != int_entries(map)[b].0);
            }
        },
        IndexMapKeyType::Str { map } => {
            assert forall|a: int, b: int| 0 <= a < b < m@.len() implies m@[a].0 != m@[b].0 by {
                assert(str_entries(map)[a].0 != str_entries(map)[b].0);
            }
        },
    }
}

impl PartialEq for IndexMapKeyType {
    /// Two collections are equal when they use the same key domain and hold
    /// the same entries in the same order.
    fn eq(&self, other: &Self) -> (r: bool) {
        match (self, other) {
            (IndexMapKeyType::I32 { map }, IndexMapKeyType::I32 { map: other_map }) => {
                let r = int_pairs_equal(map, other_map);
                proof {
                    lemma_int_view_inj(int_entries(*map), int_entries(*other_map), false);
                }
                r
            },
            (IndexMapKeyType::WarAsset { map }, IndexMapKeyType::WarAsset { map: other_map }) => {
                let r = int_pairs_equal(map, other_map);
                proof {
                    lemma_int_view_inj(int_entries(*map), int_entries(*other_map), true);
                }
                r
            },
            (IndexMapKeyType::Str { map }, IndexMapKeyType::Str { map: other_map }) => {
                let r = str_pairs_equal(map, other_map);
                proof {
                    lemma_str_view_inj(str_entries(*map), str_entries(*other_map));
                }
                r
            },
            _ => false,
        }
    }
}

impl vstd::std_specs::cmp::PartialEqSpecImpl for IndexMapKeyType {
    open spec fn obeys_eq_spec() -> bool {
        true
    }

    open spec fn eq_spec(&self, other: &Self) -> bool {
        self.domain() == other.domain() && self@ == other@
    }
}

/// Element-wise comparison of two integer-keyed maps.
fn int_pairs_equal(a: &IndexMap<i32, u64>, b: &IndexMap<i32, u64>) -> (r: bool)
    ensures
        r == (int_entries(*a) == int_entries(*b)),
{
    let pa = int_map_pairs(a);
    let pb = int_map_pairs(b);
    if pa.len() != pb.len() {
        proof {
            assert(int_entries(*a).len() != int_entries(*b).len());
        }
        return false;
    }
    let mut i: usize = 0;
    while i < pa.len()
        invariant
            i <= pa@.len(),
            pa@.len() == pb@.len(),
            pa@ == int_entries(*a),
            pb@ == int_entries(*b),
            forall|j: int| 0 <= j < i ==> pa@[j] == pb@[j],
        decreases pa@.len() - i,
    {
        let (ka, va) = pa[i];
        let (kb, vb) = pb[i];
        if ka != kb || va != vb {
            proof {
                assert(pa@[i as int] != pb@[i as int]);
            }
            return false;
        }
        i = i + 1;
    }
    proof {
        assert(pa@ =~= pb@);
    }
    true
}

/// Element-wise comparison of two string-keyed maps.
fn str_pairs_equal(a: &IndexMap<String, u64>, b: &IndexMap<String, u64>) -> (r: bool)
    ensures
        r == (str_entries(*a) == str_entries(*b)),
{
    let pa = str_map_pairs(a);
    let pb = str_map_pairs(b);
    if pa.len() != pb.len() {
        proof {
            assert(str_entries(*a).len() != str_entries(*b).len());
        }
        return false;
    }
    let mut i: usize = 0;
    while i < pa.len()
        invariant
            i <= pa@.len(),
            pa@.len() == pb@.len(),
            pa@.len() == str_entries(*a).len(),
            pb@.len() == str_entries(*b).len(),
            forall|j: int|
                0 <= j < pa@.len() ==> ((#[trigger] pa@[j]).0@, pa@[j].1) == str_entries(*a)[j],
            forall|j: int|
                0 <= j < pb@.len() ==> ((#[trigger] pb@[j]).0@, pb@[j].1) == str_entries(*b)[j],
            forall|j: int| 0 <= j < i ==> str_entries(*a)[j] == str_entries(*b)[j],
        decreases pa@.len() - i,
    {
        let ea = &pa[i];
        let eb = &pb[i];
        if !(ea.0 == eb.0) || ea.1 != eb.1 {
            proof {
                assert(str_entries(*a)[i as int] != str_entries(*b)[i as int]);
            }
            return false;
        }
        i = i + 1;
    }
    proof {
        assert(str_entries(*a) =~= str_entries(*b));
    }
    true
}

/// Two integer-keyed maps have the same abstract contents exactly when
/// their entries are the same.
proof fn lemma_int_view_inj(s: Seq<(i32, u64)>, t: Seq<(i32, u64)>, asset: bool)
    ensures
        (int_view(s, asset) == int_view(t, asset)) <==> s == t,
{
    if int_view(s, asset) == int_view(t, asset) {
        assert(s.len() == t.len()) by {
            assert(int_view(s, asset).len() == int_view(t, asset).len());
        }
        assert forall|i: int| 0 <= i < s.len() implies s[i] == t[i] by {
            assert(int_view(s, asset)[i] == int_view(t, asset)[i]);
        }
        assert(s =~= t);
    }
}

/// Two string-keyed maps have the same abstract contents exactly when
/// their entries are the same.
proof fn lemma_str_view_inj(s: Seq<(Seq<char>, u64)>, t: Seq<(Seq<char>, u64)>)
    ensures
        (str_view(s) == str_view(t)) <==> s == t,
{
    if str_view(s) == str_view(t) {
        assert(s.len() == t.len()) by {
            assert(str_view(s).len() == str_view(t).len());
        }
        assert forall|i: int| 0 <= i < s.len() implies s[i] == t[i] by {
            assert(str_view(s)[i] == str_view(t)[i]);
        }
        assert(s =~= t);
    }
}

/// Lifts the removal wrapper's contract on an integer-keyed map to the
/// abstract level, in either integer domain.
proof fn lemma_int_remove(s0: Seq<(i32, u64)>, s1: Seq<(i32, u64)>, i: int, asset: bool)
    requires
        int_keys_unique(s0),
        0 <= i < s0.len() ==> s1 == s0.remove(i),
        !(0 <= i < s0.len()) ==> s1 == s0,
    ensures
        int_keys_unique(s1),
        int_view(s1, asset) == spec_remove_at(int_view(s0, asset), i),
{
    if 0 <= i < s0.len() {
        s0.remove_ensures(i);
        assert(int_view(s1, asset) =~= int_view(s0, asset).remove(i)) by {
            int_view(s0, asset).remove_ensures(i);
        }
        assert forall|a: int, b: int| 0 <= a < b < s1.len() implies s1[a].0 != s1[b].0 by {
            let a0 = if a < i {
                a
            } else {
                a + 1
            };
            let b0 = if b < i {
                b
            } else {
                b + 1
            };
            assert(s1[a] == s0[a0] && s1[b] == s0[b0]);
        }
    }
}

/// Lifts the removal wrapper's contract on a string-keyed map to the
/// abstract level.
proof fn lemma_str_remove(s0: Seq<(Seq<char>, u64)>, s1: Seq<(Seq<char>, u64)>, i: int)
    requires
        str_keys_unique(s0),
        0 <= i < s0.len() ==> s1 == s0.remove(i),
        !(0 <= i < s0.len()) ==> s1 == s0,
    ensures
        str_keys_unique(s1),
        str_view(s1) == spec_remove_at(str_view(s0), i),
{
    if 0 <= i < s0.len() {
        s0.remove_ensures(i);
        assert(str_view(s1) =~= str_view(s0).remove(i)) by {
            str_view(s0).remove_ensures(i);
        }
        assert forall|a: int, b: int| 0 <= a < b < s1.len() implies s1[a].0 != s1[b].0 by {
            let a0 = if a < i {
                a
            } else {
                a + 1
            };
            let b0 = if b < i {
                b
            } else {
                b + 1
            };
            assert(s1[a] == s0[a0] && s1[b] == s0[b0]);
        }
    }
}

/// Lifts the key-replacement wrapper's contract on an integer-keyed map to
/// the abstract level, in either integer domain.
proof fn lemma_int_rekey(
    s0: Seq<(i32, u64)>,
    s1: Seq<(i32, u64)>,
    i: int,
    key: i32,
    ok: bool,
    asset: bool,
)
    requires
        int_keys_unique(s0),
        0 <= i < s0.len(),
        (exists|j: int| 0 <= j < s0.len() && j != i && s0[j].0 == key) ==> s1 == s0 && !ok,
        (forall|j: int| 0 <= j < s0.len() && j != i ==> s0[j].0 != key) ==> s1 == s0.update(
            i,
            (key, s0[i].1),
        ) && ok,
    ensures
        int_keys_unique(s1),
        int_view(s1, asset) == spec_rekey_at(int_view(s0, asset), i, int_key(key, asset)).0,
        ok == spec_rekey_at(int_view(s0, asset), i, int_key(key, asset)).1,
{
    let v0 = int_view(s0, asset);
    let k = int_key(key, asset);
    if exists|j: int| 0 <= j < s0.len() && j != i && s0[j].0 == key {
        let j = choose|j: int| 0 <= j < s0.len() && j != i && s0[j].0 == key;
        assert(v0[j].0 == k);
        assert(exists|j2: int| 0 <= j2 < v0.len() && j2 != i && v0[j2].0 == k);
    } else {
        assert forall|j: int| 0 <= j < v0.len() && j != i implies v0[j].0 != k by {
            assert(s0[j].0 != key);
        }
        assert(s1 == s0.update(i, (key, s0[i].1)) && ok);
        assert(int_view(s1, asset) =~= v0.update(i, (k, v0[i].1)));
        assert forall|a: int, b: int| 0 <= a < b < s1.len() implies s1[a].0 != s1[b].0 by {
            if a != i && b != i {
                assert(s1[a].0 == s0[a].0 && s1[b].0 == s0[b].0);
            } else if a == i {
                assert(s1[b].0 == s0[b].0 && s0[b].0 != key);
            } else {
                assert(s1[a].0 == s0[a].0 && s0[a].0 != key);
            }
        }
    }
}

/// Lifts the key-replacement wrapper's contract on a string-keyed map to
/// the abstract level.
proof fn lemma_str_rekey(
    s0: Seq<(Seq<char>, u64)>,
    s1: Seq<(Seq<char>, u64)>,
    i: int,
    key: Seq<char>,
    ok: bool,
)
    requires
        str_keys_unique(s0),
        0 <= i < s0.len(),
        (exists|j: int| 0 <= j < s0.len() && j != i && s0[j].0 == key) ==> s1 == s0 && !ok,
        (forall|j: int| 0 <= j < s0.len() && j != i ==> s0[j].0 != key) ==> s1 == s0.update(
            i,
            (key, s0[i].1),
        ) && ok,
    ensures
        str_keys_unique(s1),
        str_view(s1) == spec_rekey_at(str_view(s0), i, SpecKey::Str(key)).0,
        ok == spec_rekey_at(str_view(s0), i, SpecKey::Str(key)).1,
{
    let v0 = str_view(s0);
    let k = SpecKey::Str(key);
    if exists|j: int| 0 <= j < s0.len() && j != i && s0[j].0 == key {
        let j = choose|j: int| 0 <= j < s0.len() && j != i && s0[j].0 == key;
        assert(v0[j].0 == k);
        assert(exists|j2: int| 0 <= j2 < v0.len() && j2 != i && v0[j2].0 == k);
    } else {
        assert forall|j: int| 0 <= j < v0.len() && j != i implies v0[j].0 != k by {
            assert(s0[j].0 != key);
        }
        assert(s1 == s0.update(i, (key, s0[i].1)) && ok);
        assert(str_view(s1) =~= v0.update(i, (k, v0[i].1)));
        assert forall|a: int, b: int| 0 <= a < b < s1.len() implies s1[a].0 != s1[b].0 by {
            if a != i && b != i {
                assert(s1[a].0 == s0[a].0 && s1[b].0 == s0[b].0);
            } else if a == i {
                assert(s1[b].0 == s0[b].0 && s0[b].0 != key);
            } else {
                assert(s1[a].0 == s0[a].0 && s0[a].0 != key);
            }
        }
    }
}

/// Lifts the insertion wrapper's contract on an integer-keyed map to the
/// abstract level, in either integer domain.
proof fn lemma_int_add(
    s0: Seq<(i32, u64)>,
    s1: Seq<(i32, u64)>,
    key: i32,
    fresh: u64,
    pos: int,
    asset: bool,
)
    requires
        int_keys_unique(s0),
        forall|j: int|
            #![trigger s0[j]]
            0 <= j < s0.len() && s0[j].0 == key ==> s1 == s0.update(j, (key, fresh)) && pos == j,
        (forall|j: int| 0 <= j < s0.len() ==> s0[j].0 != key) ==> s1 == s0.push((key, fresh))
            && pos == s0.len(),
    ensures
        int_keys_unique(s1),
        int_view(s1, asset) == spec_add_default(int_view(s0, asset), int_key(key, asset), fresh).0,
        pos == spec_add_default(int_view(s0, asset), int_key(key, asset), fresh).1,
{
    let v0 = int_view(s0, asset);
    let k = int_key(key, asset);
    if exists|j: int| 0 <= j < s0.len() && s0[j].0 == key {
        let j = choose|j: int| 0 <= j < s0.len() && s0[j].0 == key;
        assert(s1 == s0.update(j, (key, fresh)) && pos == j);
        assert(v0[j].0 == k);
        assert(has_key(v0, k));
        let j2 = index_of_key(v0, k);
        assert(0 <= j2 < v0.len() && v0[j2].0 == k);
        assert(s0[j2].0 == key);
        assert(j2 == j);
        assert(int_view(s1, asset) =~= v0.update(j, (k, fresh)));
        assert(int_keys_unique(s1));
    } else {
        assert(s1 == s0.push((key, fresh)) && pos == s0.len());
        assert forall|j: int| 0 <= j < v0.len() implies v0[j].0 != k by {
            assert(s0[j].0 != key);
        }
        assert(!has_key(v0, k));
        assert(int_view(s1, asset) =~= v0.push((k, fresh)));
        assert forall|i: int, j: int| 0 <= i < j < s1.len() implies s1[i].0 != s1[j].0 by {
            if j < s0.len() {
            } else {
                assert(s1[j].0 == key);
                assert(s0[i].0 != key);
            }
        }
    }
}

/// Lifts the insertion wrapper's contract on a string-keyed map to the
/// abstract level.
proof fn lemma_str_add(
    s0: Seq<(Seq<char>, u64)>,
    s1: Seq<(Seq<char>, u64)>,
    key: Seq<char>,
    fresh: u64,
    pos: int,
)
    requires
        str_keys_unique(s0),
        forall|j: int|
            #![trigger s0[j]]
            0 <= j < s0.len() && s0[j].0 == key ==> s1 == s0.update(j, (key, fresh)) && pos == j,
        (forall|j: int| 0 <= j < s0.len() ==> s0[j].0 != key) ==> s1 == s0.push((key, fresh))
            && pos == s0.len(),
    ensures
        str_keys_unique(s1),
        str_view(s1) == spec_add_default(str_view(s0), SpecKey::Str(key), fresh).0,
        pos == spec_add_default(str_view(s0), SpecKey::Str(key), fresh).1,
{
    let v0 = str_view(s0);
    let k = SpecKey::Str(key);
    if exists|j: int| 0 <= j < s0.len() && s0[j].0 == key {
        let j = choose|j: int| 0 <= j < s0.len() && s0[j].0 == key;
        assert(s1 == s0.update(j, (key, fresh)) && pos == j);
        assert(v0[j].0 == k);
        assert(has_key(v0, k));
        let j2 = index_of_key(v0, k);
        assert(0 <= j2 < v0.len() && v0[j2].0 == k);
        assert(s0[j2].0 == key);
        assert(j2 == j);
        assert(str_view(s1) =~= v0.update(j, (k, fresh)));
        assert(str_keys_unique(s1));
    } else {
        assert(s1 == s0.push((key, fresh)) && pos == s0.len());
        assert forall|j: int| 0 <= j < v0.len() implies v0[j].0 != k by {
            assert(s0[j].0 != key);
        }
        assert(!has_key(v0, k));
        assert(str_view(s1) =~= v0.push((k, fresh)));
        assert forall|i: int, j: int| 0 <= i < j < s1.len() implies s1[i].0 != s1[j].0 by {
            if j < s0.len() {
            } else {
                assert(s1[j].0 == key);
                assert(s0[i].0 != key);
            }
        }
    }
}

} // verus!
