use savegraph::collection::{EntryKey, IndexMapKeyType};
use savegraph::value::CallbackType;

fn keys_of(map: &IndexMapKeyType) -> Vec<String> {
    map.entries()
        .into_iter()
        .map(|(k, _)| match k {
            EntryKey::I32 { value } => format!("i{}", value),
            EntryKey::Asset { asset } => format!("a{}", asset.0),
            EntryKey::Str { string } => format!("s{}", string),
        })
        .collect()
}

fn values_of(map: &IndexMapKeyType) -> Vec<u64> {
    map.entries().into_iter().map(|(_, v)| v).collect()
}

#[test]
fn new_collections_are_empty() {
    assert_eq!(IndexMapKeyType::new_i32().len(), 0);
    assert_eq!(IndexMapKeyType::new_war_asset().len(), 0);
    assert_eq!(IndexMapKeyType::new_str().len(), 0);
}

#[test]
fn add_idempotent_on_sentinel_key() {
    let mut map = IndexMapKeyType::new_i32();
    let first = map.add_default(1);
    let second = map.add_default(2);
    assert_eq!(first, 0);
    assert_eq!(second, 0);
    assert_eq!(map.len(), 1);
    assert_eq!(keys_of(&map), vec!["i-1".to_string()]);
    // the second call acted as a pure value reset
    assert_eq!(values_of(&map), vec![2]);
}

#[test]
fn string_collection_add_and_rekey_scenario() {
    let mut map = IndexMapKeyType::new_str();
    map.add_default(10);
    map.add_default(20);
    map.add_default(30);
    // all three adds collide on the empty-string sentinel: one entry,
    // holding the last default value
    assert_eq!(map.len(), 1);
    assert_eq!(keys_of(&map), vec!["s".to_string()]);
    assert_eq!(values_of(&map), vec![30]);
    let changed = map.rekey_at(0, CallbackType::Str { string: "Alpha".to_string() });
    assert!(changed);
    assert_eq!(keys_of(&map), vec!["sAlpha".to_string()]);
    assert_eq!(values_of(&map), vec![30]);
    // with the sentinel key free again, a new add appends
    let pos = map.add_default(40);
    assert_eq!(pos, 1);
    assert_eq!(keys_of(&map), vec!["sAlpha".to_string(), "s".to_string()]);
}

#[test]
fn asset_collection_shift_removal_scenario() {
    let mut map = IndexMapKeyType::new_war_asset();
    map.add_default(100);
    assert!(map.rekey_at(0, CallbackType::Int { value: 5 }));
    map.add_default(101);
    assert!(map.rekey_at(1, CallbackType::Int { value: 6 }));
    map.add_default(102);
    assert!(map.rekey_at(2, CallbackType::Int { value: 7 }));
    assert_eq!(keys_of(&map), vec!["a5", "a6", "a7"]);

    let removed = map.remove_at(1);
    assert!(removed);
    assert_eq!(keys_of(&map), vec!["a5", "a7"]);
    assert_eq!(values_of(&map), vec![100, 102]);
}

#[test]
fn remove_out_of_range_is_noop() {
    let mut map = IndexMapKeyType::new_i32();
    map.add_default(1);
    let removed = map.remove_at(7);
    assert!(!removed);
    assert_eq!(map.len(), 1);
}

#[test]
fn rekey_type_mismatch_leaves_collection_unchanged() {
    let mut map = IndexMapKeyType::new_i32();
    map.add_default(9);
    let mut same = IndexMapKeyType::new_i32();
    same.add_default(9);
    let changed = map.rekey_at(0, CallbackType::Str { string: "nope".to_string() });
    assert!(!changed);
    assert!(map == same);
    let changed = map.rekey_at(0, CallbackType::Bool { value: true });
    assert!(!changed);
    assert!(map == same);
}

#[test]
fn rekey_to_existing_key_is_rejected() {
    let mut map = IndexMapKeyType::new_i32();
    map.add_default(1);
    assert!(map.rekey_at(0, CallbackType::Int { value: 4 }));
    map.add_default(2);
    // keys are now 4 and -1; renaming -1 to 4 would duplicate
    let changed = map.rekey_at(1, CallbackType::Int { value: 4 });
    assert!(!changed);
    assert_eq!(keys_of(&map), vec!["i4", "i-1"]);
}

#[test]
fn rekey_at_stale_position_is_noop() {
    let mut map = IndexMapKeyType::new_str();
    map.add_default(1);
    let changed = map.rekey_at(3, CallbackType::Str { string: "x".to_string() });
    assert!(!changed);
    assert_eq!(keys_of(&map), vec!["s"]);
}

#[test]
fn collections_compare_by_domain_and_contents() {
    let a = IndexMapKeyType::new_i32();
    let b = IndexMapKeyType::new_str();
    assert!(a != b);

    let mut c = IndexMapKeyType::new_i32();
    let mut d = IndexMapKeyType::new_i32();
    c.add_default(5);
    assert!(c != d);
    d.add_default(5);
    assert!(c == d);
    c.rekey_at(0, CallbackType::Int { value: 8 });
    assert!(c != d);
}

#[test]
fn order_is_preserved_across_adds_and_removes() {
    let mut map = IndexMapKeyType::new_i32();
    map.add_default(0);
    map.rekey_at(0, CallbackType::Int { value: 10 });
    map.add_default(1);
    map.rekey_at(1, CallbackType::Int { value: 11 });
    map.add_default(2);
    map.rekey_at(2, CallbackType::Int { value: 12 });
    map.add_default(3);
    map.rekey_at(3, CallbackType::Int { value: 13 });
    map.remove_at(1);
    map.remove_at(1);
    assert_eq!(keys_of(&map), vec!["i10", "i13"]);
    map.add_default(4);
    assert_eq!(keys_of(&map), vec!["i10", "i13", "i-1"]);
}
