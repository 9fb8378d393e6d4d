use savegraph::value::{ArrayItem, CallbackType, PropertyValue, StructValue};
use savegraph::legacy::ArtPlaceable;

#[test]
fn bool_edit_flips_payload() {
    let mut p = PropertyValue::Bool { name_id: 1, value: false };
    let changed = p.apply_edit(CallbackType::Bool { value: true });
    assert!(changed);
    assert!(matches!(p, PropertyValue::Bool { name_id: 1, value: true }));
}

#[test]
fn int_edit_replaces_payload() {
    let mut p = PropertyValue::Int { name_id: 2, value: 7 };
    let changed = p.apply_edit(CallbackType::Int { value: -3 });
    assert!(changed);
    assert!(matches!(p, PropertyValue::Int { name_id: 2, value: -3 }));
}

#[test]
fn string_ref_takes_integer_edits() {
    let mut p = PropertyValue::StringRef { name_id: 3, value: 10 };
    let changed = p.apply_edit(CallbackType::Int { value: 55 });
    assert!(changed);
    assert!(matches!(p, PropertyValue::StringRef { name_id: 3, value: 55 }));
}

#[test]
fn float_edit_replaces_bits() {
    let mut p = PropertyValue::Float { name_id: 4, bits: 0 };
    let changed = p.apply_edit(CallbackType::Float { bits: 1.5f32.to_bits() });
    assert!(changed);
    match p {
        PropertyValue::Float { bits, .. } => assert_eq!(f32::from_bits(bits), 1.5f32),
        _ => panic!("variant changed"),
    }
}

#[test]
fn text_edit_replaces_string() {
    let mut p = PropertyValue::Str { name_id: 5, string: "old".to_string() };
    let changed = p.apply_edit(CallbackType::Str { string: "new".to_string() });
    assert!(changed);
    assert!(matches!(p, PropertyValue::Str { ref string, .. } if string == "new"));
}

#[test]
fn mismatched_edit_is_dropped_without_change() {
    let mut p = PropertyValue::Bool { name_id: 1, value: true };
    assert!(!p.apply_edit(CallbackType::Int { value: 9 }));
    assert!(matches!(p, PropertyValue::Bool { value: true, .. }));

    let mut p = PropertyValue::Name { name_id: 2, value_name_id: 7 };
    assert!(!p.apply_edit(CallbackType::Int { value: 9 }));
    assert!(matches!(p, PropertyValue::Name { value_name_id: 7, .. }));

    let mut p = PropertyValue::Object { name_id: 3, object_id: 4 };
    assert!(!p.apply_edit(CallbackType::Str { string: "x".to_string() }));
    assert!(matches!(p, PropertyValue::Object { object_id: 4, .. }));
}

#[test]
fn edits_never_change_the_variant_tag() {
    let mut p = PropertyValue::Int { name_id: 1, value: 0 };
    p.apply_edit(CallbackType::Bool { value: true });
    p.apply_edit(CallbackType::Float { bits: 1 });
    p.apply_edit(CallbackType::Str { string: "s".to_string() });
    p.apply_edit(CallbackType::Int { value: 99 });
    assert!(matches!(p, PropertyValue::Int { value: 99, .. }));
}

#[test]
fn name_id_reports_the_owning_field() {
    let p = PropertyValue::Struct {
        name_id: 12,
        struct_name_id: 13,
        value: StructValue::Vector { x: 0, y: 0, z: 0 },
    };
    assert_eq!(p.name_id(), 12);
    let p = PropertyValue::Array {
        name_id: 8,
        array: vec![ArrayItem::Int { value: 1 }, ArrayItem::Str { string: "s".to_string() }],
    };
    assert_eq!(p.name_id(), 8);
}

#[test]
fn legacy_placeable_holds_sixty_opaque_bytes() {
    let p = ArtPlaceable { _unknown: [0u8; 60] };
    assert_eq!(p._unknown.len(), 60);
}

#[test]
fn array_item_edits_replace_matching_payloads_only() {
    let mut it = ArrayItem::Int { value: 4 };
    assert!(it.apply_edit(CallbackType::Int { value: -9 }));
    assert!(matches!(it, ArrayItem::Int { value: -9 }));
    assert!(!it.apply_edit(CallbackType::Str { string: "x".to_string() }));
    assert!(matches!(it, ArrayItem::Int { value: -9 }));

    let mut it = ArrayItem::Str { string: "old".to_string() };
    assert!(it.apply_edit(CallbackType::Str { string: "new".to_string() }));
    assert!(matches!(it, ArrayItem::Str { ref string } if string == "new"));

    let mut it = ArrayItem::Object { object_id: 2 };
    assert!(!it.apply_edit(CallbackType::Int { value: 5 }));
    assert!(matches!(it, ArrayItem::Object { object_id: 2 }));
}

#[test]
fn vector_item_components_take_float_edits() {
    let mut it = ArrayItem::Vector { x: 0, y: 0, z: 0 };
    assert!(it.apply_component_edit(1, CallbackType::Float { bits: 2.5f32.to_bits() }));
    match it {
        ArrayItem::Vector { x, y, z } => {
            assert_eq!(x, 0);
            assert_eq!(f32::from_bits(y), 2.5f32);
            assert_eq!(z, 0);
        }
        _ => panic!("variant changed"),
    }
    // out-of-range component and mismatched payload are no-ops
    assert!(!it.apply_component_edit(3, CallbackType::Float { bits: 1 }));
    assert!(!it.apply_component_edit(0, CallbackType::Int { value: 1 }));
}

#[test]
fn struct_components_take_float_edits_in_display_order() {
    let mut sv = StructValue::LinearColor { r: 0, g: 0, b: 0, a: 0 };
    assert!(sv.apply_component_edit(3, CallbackType::Float { bits: 1.0f32.to_bits() }));
    assert!(matches!(sv, StructValue::LinearColor { a, .. } if f32::from_bits(a) == 1.0f32));
    assert!(!sv.apply_component_edit(4, CallbackType::Float { bits: 1 }));

    let mut sv = StructValue::Rotator { pitch: 0, yaw: 0, roll: 0 };
    assert!(sv.apply_component_edit(2, CallbackType::Float { bits: 7 }));
    assert!(matches!(sv, StructValue::Rotator { roll: 7, .. }));
    assert!(!sv.apply_component_edit(0, CallbackType::Str { string: "x".to_string() }));

    let mut sv = StructValue::Properties { properties: vec![] };
    assert!(!sv.apply_component_edit(0, CallbackType::Float { bits: 1 }));
    assert!(matches!(sv, StructValue::Properties { .. }));
}
