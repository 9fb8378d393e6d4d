use savegraph::collection::IndexMapKeyType;
use savegraph::display::DisplayNode;
use savegraph::legacy::{EntryValue, LegacyLevel, LegacyMap};
use savegraph::panel::{Msg, RawUiIndexMap};
use savegraph::resolver::Resolver;
use savegraph::value::{CallbackType, PropertyValue};

fn empty_resolver() -> Resolver {
    Resolver {
        names: vec!["Score".to_string(), "Flag".to_string()],
        objects: vec![],
        classes: vec![],
    }
}

#[test]
fn create_starts_closed_with_cleared_marker() {
    let panel = RawUiIndexMap::create();
    assert!(!panel.opened);
    assert_eq!(panel.new_item_idx, 0);
}

#[test]
fn toggle_open_resets_the_recently_added_marker() {
    let mut panel = RawUiIndexMap::create();
    let mut map = IndexMapKeyType::new_i32();
    map.add_default(1);
    panel.new_item_idx = 0;

    let changed = panel.update(&mut map, Msg::Toggle);
    assert!(changed);
    assert!(panel.opened);
    // the marker is out of range, so no stale entry re-expands
    assert_eq!(panel.new_item_idx, map.len());

    let changed = panel.update(&mut map, Msg::Toggle);
    assert!(changed);
    assert!(!panel.opened);
}

#[test]
fn add_message_tracks_the_affected_position() {
    let mut panel = RawUiIndexMap::create();
    let mut map = IndexMapKeyType::new_str();
    assert!(panel.update(&mut map, Msg::Add { fresh: 7 }));
    assert_eq!(panel.new_item_idx, 0);
    assert_eq!(map.len(), 1);
    // a second add collides with the sentinel key and resets in place
    assert!(panel.update(&mut map, Msg::Add { fresh: 8 }));
    assert_eq!(panel.new_item_idx, 0);
    assert_eq!(map.len(), 1);
}

#[test]
fn remove_message_removes_and_requests_a_render() {
    let mut panel = RawUiIndexMap::create();
    let mut map = IndexMapKeyType::new_i32();
    map.add_default(1);
    assert!(panel.update(&mut map, Msg::Remove { idx: 0 }));
    assert_eq!(map.len(), 0);
    // a stale position is absorbed as a no-op but still re-renders
    assert!(panel.update(&mut map, Msg::Remove { idx: 5 }));
}

#[test]
fn edit_key_message_honours_the_type_boundary() {
    let mut panel = RawUiIndexMap::create();
    let mut map = IndexMapKeyType::new_i32();
    map.add_default(1);
    let matched = panel.update(
        &mut map,
        Msg::EditKey { idx: 0, new_key: CallbackType::Str { string: "x".to_string() } },
    );
    assert!(!matched);
    let matched = panel.update(
        &mut map,
        Msg::EditKey { idx: 0, new_key: CallbackType::Int { value: 12 } },
    );
    assert!(matched);
    let keys: Vec<i32> = map
        .entries()
        .into_iter()
        .map(|(k, _)| match k {
            savegraph::collection::EntryKey::I32 { value } => value,
            _ => panic!("wrong key domain"),
        })
        .collect();
    assert_eq!(keys, vec![12]);
}

#[test]
fn closed_panel_shows_nothing() {
    let panel = RawUiIndexMap::create();
    let map = IndexMapKeyType::new_i32();
    let arena: Vec<EntryValue> = vec![];
    let nodes = panel.children(&map, &arena, &empty_resolver(), 3).unwrap();
    assert!(nodes.is_empty());
}

#[test]
fn open_panel_shows_one_row_per_entry_plus_add() {
    let mut panel = RawUiIndexMap::create();
    let mut map = IndexMapKeyType::new_i32();
    panel.update(&mut map, Msg::Toggle);
    map.add_default(0);
    map.rekey_at(0, CallbackType::Int { value: 3 });
    map.add_default(1);
    let arena = vec![
        EntryValue::Single { value: PropertyValue::Int { name_id: 0, value: 41 } },
        EntryValue::Single { value: PropertyValue::Bool { name_id: 1, value: true } },
    ];
    let nodes = panel.children(&map, &arena, &empty_resolver(), 3).unwrap();
    assert_eq!(nodes.len(), 3);
    assert!(matches!(nodes[2], DisplayNode::AddEntry));
    match &nodes[0] {
        DisplayNode::Tree { label, children } => {
            assert_eq!(label, "3");
            assert_eq!(children.len(), 2);
            assert!(matches!(children[0], DisplayNode::IntEditor { value: 3, ref label } if label == "Id"));
            assert!(matches!(children[1], DisplayNode::IntEditor { value: 41, ref label } if label == "Score"));
        }
        _ => panic!("expected a row tree"),
    }
    match &nodes[1] {
        DisplayNode::Tree { children, .. } => {
            assert!(matches!(children[1], DisplayNode::BoolEditor { value: true, .. }));
        }
        _ => panic!("expected a row tree"),
    }
}

#[test]
fn legacy_containers_contribute_their_children_directly() {
    let mut panel = RawUiIndexMap::create();
    let mut map = IndexMapKeyType::new_str();
    panel.update(&mut map, Msg::Toggle);
    map.add_default(0);
    let arena = vec![EntryValue::MapData {
        map: LegacyMap {
            fields: vec![
                PropertyValue::Int { name_id: 0, value: 1 },
                PropertyValue::Bool { name_id: 1, value: false },
            ],
        },
    }];
    let nodes = panel.children(&map, &arena, &empty_resolver(), 3).unwrap();
    assert_eq!(nodes.len(), 2);
    match &nodes[0] {
        DisplayNode::Tree { label, children } => {
            assert_eq!(label, "<empty>");
            // the key editor, then the container's two fields unwrapped
            assert_eq!(children.len(), 3);
            assert!(matches!(children[0], DisplayNode::TextEditor { ref label, .. } if label == "Key"));
            assert!(matches!(children[1], DisplayNode::IntEditor { value: 1, .. }));
            assert!(matches!(children[2], DisplayNode::BoolEditor { value: false, .. }));
        }
        _ => panic!("expected a row tree"),
    }
}

#[test]
fn sub_collection_projection_is_a_closed_two_case_rule() {
    let single = EntryValue::Single { value: PropertyValue::Int { name_id: 0, value: 1 } };
    assert!(single.as_sub_collection().is_none());
    let map = EntryValue::MapData { map: LegacyMap { fields: vec![] } };
    assert!(map.as_sub_collection().is_some());
    let level = EntryValue::LevelData { level: LegacyLevel { fields: vec![] } };
    assert!(level.as_sub_collection().is_some());
}

#[test]
fn dangling_arena_handle_is_a_corruption_error() {
    let mut panel = RawUiIndexMap::create();
    let mut map = IndexMapKeyType::new_i32();
    panel.update(&mut map, Msg::Toggle);
    map.add_default(5);
    let arena: Vec<EntryValue> = vec![];
    assert!(panel.children(&map, &arena, &empty_resolver(), 3).is_err());
}

#[test]
fn asset_rows_are_labelled_with_the_asset_name() {
    let mut panel = RawUiIndexMap::create();
    let mut map = IndexMapKeyType::new_war_asset();
    panel.update(&mut map, Msg::Toggle);
    map.add_default(0);
    map.rekey_at(0, CallbackType::Int { value: 187 });
    let arena = vec![EntryValue::Single { value: PropertyValue::Int { name_id: 0, value: 1 } }];
    let nodes = panel.children(&map, &arena, &empty_resolver(), 2).unwrap();
    match &nodes[0] {
        DisplayNode::Tree { label, children } => {
            assert_eq!(label, "Normandy_Military (187)");
            assert!(
                matches!(children[0], DisplayNode::IntEditor { value: 187, ref label } if label == "Normandy_Military")
            );
        }
        _ => panic!("expected a row tree"),
    }
}

#[test]
fn integer_rows_are_labelled_with_the_decimal_key() {
    let mut panel = RawUiIndexMap::create();
    let mut map = IndexMapKeyType::new_i32();
    panel.update(&mut map, Msg::Toggle);
    map.add_default(0);
    let arena = vec![EntryValue::Single { value: PropertyValue::Int { name_id: 0, value: 1 } }];
    let nodes = panel.children(&map, &arena, &empty_resolver(), 2).unwrap();
    match &nodes[0] {
        DisplayNode::Tree { label, .. } => assert_eq!(label, "-1"),
        _ => panic!("expected a row tree"),
    }
    map.rekey_at(0, CallbackType::Int { value: 120730 });
    let nodes = panel.children(&map, &arena, &empty_resolver(), 2).unwrap();
    match &nodes[0] {
        DisplayNode::Tree { label, .. } => assert_eq!(label, "120730"),
        _ => panic!("expected a row tree"),
    }
}
