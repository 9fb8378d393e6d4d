//! The trusted boundary around `indexmap::IndexMap`, the insertion-ordered
//! map that backs the ordered keyed collection.
//!
//! The map is used at two concrete instantiations: integer keys (shared by
//! the bare-integer and the asset-tagged key domains) and string keys.  In
//! both, the value is a `u64` node handle resolved against an arena owned
//! elsewhere.  What a map holds is named by the two uninterpreted contents
//! functions; every wrapper's contract states, over those names, what the
//! called method does to the contents, as the crate's source shows it.

use vstd::prelude::*;
use indexmap::IndexMap;

verus! {

#[verifier::external_type_specification]
#[verifier::external_body]
#[verifier::reject_recursive_types(K)]
#[verifier::reject_recursive_types(V)]
#[verifier::reject_recursive_types(S)]
pub struct ExIndexMap<K, V, S>(IndexMap<K, V, S>);

/// The entries of an integer-keyed map, in iteration order.
pub uninterp spec fn int_entries(m: IndexMap<i32, u64>) -> Seq<(i32, u64)>;

/// The entries of a string-keyed map, in iteration order.
pub uninterp spec fn str_entries(m: IndexMap<String, u64>) -> Seq<(Seq<char>, u64)>;

/// No two entries share a key: every map built through this module's
/// wrappers keeps this, and the mutating wrappers require it.
pub open spec fn int_keys_unique(s: Seq<(i32, u64)>) -> bool {
    forall|i: int, j: int| 0 <= i < j < s.len() ==> s[i].0 != s[j].0
}

/// As `int_keys_unique`, for string keys.
pub open spec fn str_keys_unique(s: Seq<(Seq<char>, u64)>) -> bool {
    forall|i: int, j: int| 0 <= i < j < s.len() ==> s[i].0 != s[j].0
}

/// Relies on `IndexMap::new`: makes an empty map.
#[verifier::external_body]
pub(crate) fn int_map_new() -> (m: IndexMap<i32, u64>)
    ensures
        int_entries(m) == Seq::<(i32, u64)>::empty(),
{
    IndexMap::new()
}

/// Relies on `IndexMap::new`: makes an empty map.
#[verifier::external_body]
pub(crate) fn str_map_new() -> (m: IndexMap<String, u64>)
    ensures
        str_entries(m) == Seq::<(Seq<char>, u64)>::empty(),
{
    IndexMap::new()
}

/// Relies on `IndexMap::len`: the number of entries.
#[verifier::external_body]
pub(crate) fn int_map_len(m: &IndexMap<i32, u64>) -> (n: usize)
    ensures
        n == int_entries(*m).len(),
{
    m.len()
}

/// Relies on `IndexMap::len`: the number of entries.
#[verifier::external_body]
pub(crate) fn str_map_len(m: &IndexMap<String, u64>) -> (n: usize)
    ensures
        n == str_entries(*m).len(),
{
    m.len()
}

/// Relies on `IndexMap::insert_full`: an existing key keeps its place in
/// the order and has its value replaced; a new key-value pair is appended
/// last.  Either way the affected entry's index is returned.
#[verifier::external_body]
pub(crate) fn int_map_insert_full(m: &mut IndexMap<i32, u64>, key: i32, value: u64) -> (index:
    usize)
    requires
        int_keys_unique(int_entries(*old(m))),
    ensures
        forall|j: int|
            #![trigger int_entries(*old(m))[j]]
            0 <= j < int_entries(*old(m)).len() && int_entries(*old(m))[j].0 == key ==> int_entries(
                *final (m),
            ) == int_entries(*old(m)).update(j, (key, value)) && index == j,
        (forall|j: int| 0 <= j < int_entries(*old(m)).len() ==> int_entries(*old(m))[j].0 != key)
            ==> int_entries(*final (m)) == int_entries(*old(m)).push((key, value)) && index
            == int_entries(*old(m)).len(),
{
    m.insert_full(key, value).0
}

/// Relies on `IndexMap::insert_full`, as the integer-keyed wrapper does.
#[verifier::external_body]
pub(crate) fn str_map_insert_full(m: &mut IndexMap<String, u64>, key: String, value: u64) -> (index:
    usize)
    requires
        str_keys_unique(str_entries(*old(m))),
    ensures
        forall|j: int|
            #![trigger str_entries(*old(m))[j]]
            0 <= j < str_entries(*old(m)).len() && str_entries(*old(m))[j].0 == key@
                ==> str_entries(*final (m)) == str_entries(*old(m)).update(j, (key@, value))
                && index == j,
        (forall|j: int| 0 <= j < str_entries(*old(m)).len() ==> str_entries(*old(m))[j].0 != key@)
            ==> str_entries(*final (m)) == str_entries(*old(m)).push((key@, value)) && index
            == str_entries(*old(m)).len(),
{
    m.insert_full(key, value).0
}

/// Relies on `IndexMap::shift_remove_index`: removes the entry at `index`
/// and shifts every entry after it down by one, keeping their order; an
/// out-of-range index leaves the map unchanged and returns nothing.
#[verifier::external_body]
pub(crate) fn int_map_shift_remove_index(m: &mut IndexMap<i32, u64>, index: usize) -> (removed:
    Option<(i32, u64)>)
    ensures
        ({
            let s = int_entries(*old(m));
            let t = int_entries(*final (m));
            if index < s.len() {
                t == s.remove(index as int) && removed == Some(s[index as int])
            } else {
                t == s && removed is None
            }
        }),
{
    m.shift_remove_index(index)
}

/// Relies on `IndexMap::shift_remove_index`, as the integer-keyed wrapper
/// does.  The removed key is not handed back, only the value.
#[verifier::external_body]
pub(crate) fn str_map_shift_remove_index(m: &mut IndexMap<String, u64>, index: usize) -> (removed:
    Option<u64>)
    ensures
        ({
            let s = str_entries(*old(m));
            let t = str_entries(*final (m));
            if index < s.len() {
                t == s.remove(index as int) && removed == Some(s[index as int].1)
            } else {
                t == s && removed is None
            }
        }),
{
    m.shift_remove_index(index).map(|kv| kv.1)
}

/// Relies on `IndexMap::replace_index`: replaces only the key of the entry
/// at `index`, keeping its value and its position; if the new key is already
/// used at a different index the map is left unchanged and the clash is
/// reported.  An out-of-range index panics there, so it is excluded here.
#[verifier::external_body]
pub(crate) fn int_map_replace_index(m: &mut IndexMap<i32, u64>, index: usize, key: i32) -> (ok:
    bool)
    requires
        index < int_entries(*old(m)).len(),
        int_keys_unique(int_entries(*old(m))),
    ensures
        (exists|j: int|
            0 <= j < int_entries(*old(m)).len() && j != index && int_entries(*old(m))[j].0 == key)
            ==> int_entries(*final (m)) == int_entries(*old(m)) && !ok,
        (forall|j: int|
            0 <= j < int_entries(*old(m)).len() && j != index ==> int_entries(*old(m))[j].0 != key)
            ==> int_entries(*final (m)) == int_entries(*old(m)).update(
            index as int,
            (key, int_entries(*old(m))[index as int].1),
        ) && ok,
{
    match m.replace_index(index, key) {
        Ok(_) => true,
        Err(_) => false,
    }
}

/// Relies on `IndexMap::replace_index`, as the integer-keyed wrapper does.
#[verifier::external_body]
pub(crate) fn str_map_replace_index(m: &mut IndexMap<String, u64>, index: usize, key: String) -> (ok:
    bool)
    requires
        index < str_entries(*old(m)).len(),
        str_keys_unique(str_entries(*old(m))),
    ensures
        (exists|j: int|
            0 <= j < str_entries(*old(m)).len() && j != index && str_entries(*old(m))[j].0 == key@)
            ==> str_entries(*final (m)) == str_entries(*old(m)) && !ok,
        (forall|j: int|
            0 <= j < str_entries(*old(m)).len() && j != index ==> str_entries(*old(m))[j].0
                != key@) ==> str_entries(*final (m)) == str_entries(*old(m)).update(
            index as int,
            (key@, str_entries(*old(m))[index as int].1),
        ) && ok,
{
    match m.replace_index(index, key) {
        Ok(_) => true,
        Err(_) => false,
    }
}

/// Relies on `IndexMap::iter`: yields the entries in order, first to last.
#[verifier::external_body]
pub(crate) fn int_map_pairs(m: &IndexMap<i32, u64>) -> (r: Vec<(i32, u64)>)
    ensures
        r@ == int_entries(*m),
{
    m.iter().map(|(k, v)| (*k, *v)).collect()
}

/// Relies on `IndexMap::iter`: yields the entries in order, first to last.
#[verifier::external_body]
pub(crate) fn str_map_pairs(m: &IndexMap<String, u64>) -> (r: Vec<(String, u64)>)
    ensures
        r@.len() == str_entries(*m).len(),
        forall|i: int|
            0 <= i < r@.len() ==> (r@[i].0@, r@[i].1) == str_entries(*m)[i],
{
    m.iter().map(|(k, v)| (k.clone(), *v)).collect()
}

} // verus!
