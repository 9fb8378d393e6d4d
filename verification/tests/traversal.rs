use savegraph::display::DisplayNode;
use savegraph::resolver::{ClassRecord, ObjectRecord, ResolveError, Resolver};
use savegraph::value::{ArrayItem, PropertyValue, StructValue};

/// Two objects that reference each other, as a cyclic graph.
fn cyclic_graph() -> Resolver {
    let names = vec![
        "CurrentGame".to_string(), // 0
        "Partner".to_string(),     // 1
        "Other".to_string(),       // 2
        "Health".to_string(),      // 3
        "BaseClass".to_string(),   // 4
    ];
    let object_a = ObjectRecord {
        object_name_id: 0,
        class_id: -1,
        outer_id: 0,
        fields: vec![
            PropertyValue::Object { name_id: 1, object_id: 2 },
            PropertyValue::Int { name_id: 3, value: 100 },
        ],
    };
    let object_b = ObjectRecord {
        object_name_id: 2,
        class_id: -1,
        outer_id: 0,
        fields: vec![PropertyValue::Object { name_id: 1, object_id: 1 }],
    };
    Resolver {
        names,
        objects: vec![object_a, object_b],
        classes: vec![ClassRecord { class_name_id: 4 }],
    }
}

fn object_nesting(node: &DisplayNode) -> usize {
    match node {
        DisplayNode::Tree { children, .. } => {
            children.iter().map(object_nesting).max().unwrap_or(0)
        }
        DisplayNode::ObjectTree { children, .. } => {
            1 + children.iter().map(object_nesting).max().unwrap_or(0)
        }
        _ => 0,
    }
}

#[test]
fn resolver_lookups_work_and_misses_are_fatal() {
    let g = cyclic_graph();
    assert_eq!(g.resolve_name(0).unwrap(), "CurrentGame");
    assert_eq!(g.resolve_name(4).unwrap(), "BaseClass");
    assert_eq!(g.resolve_name(5), Err(ResolveError::UnknownIdentifier));
    assert_eq!(g.resolve_name(-1), Err(ResolveError::UnknownIdentifier));

    assert_eq!(g.resolve_object(1).unwrap().object_name_id, 0);
    assert_eq!(g.resolve_object(2).unwrap().object_name_id, 2);
    assert!(g.resolve_object(0).is_err());
    assert!(g.resolve_object(3).is_err());

    assert_eq!(g.resolve_class(-1).unwrap().class_name_id, 4);
    assert!(g.resolve_class(0).is_err());
    assert!(g.resolve_class(-2).is_err());
    assert!(g.resolve_class(7).is_err());
}

#[test]
fn cyclic_traversal_terminates_and_respects_depth_budget() {
    let g = cyclic_graph();
    for d in 0..6u32 {
        let node = g.describe_object(1, d).expect("traversal must succeed");
        assert!(object_nesting(&node) <= d as usize);
    }
}

#[test]
fn exhausted_budget_yields_a_leaf() {
    let g = cyclic_graph();
    let node = g.describe_object(1, 0).unwrap();
    assert!(matches!(node, DisplayNode::TextLeaf { ref label, .. } if label == "CurrentGame"));
}

#[test]
fn object_tree_lists_fields_in_storage_order() {
    let g = cyclic_graph();
    let node = g.describe_object(1, 2).unwrap();
    match node {
        DisplayNode::ObjectTree { label, children } => {
            assert_eq!(label, "CurrentGame");
            assert_eq!(children.len(), 2);
            assert!(matches!(children[0], DisplayNode::Tree { ref label, .. } if label == "Partner"));
            assert!(
                matches!(children[1], DisplayNode::IntEditor { ref label, value: 100 } if label == "Health")
            );
        }
        _ => panic!("expected an object tree"),
    }
}

#[test]
fn unresolvable_identifier_aborts_traversal() {
    let g = cyclic_graph();
    assert_eq!(g.describe_object(9, 3), Err(ResolveError::UnknownIdentifier));
    let bad = PropertyValue::Object { name_id: 1, object_id: 5 };
    assert_eq!(g.describe_property(&bad, 3), Err(ResolveError::UnknownIdentifier));
    let bad_name = PropertyValue::Int { name_id: 40, value: 1 };
    assert_eq!(g.describe_property(&bad_name, 3), Err(ResolveError::UnknownIdentifier));
}

#[test]
fn negative_reference_renders_the_class_name() {
    let g = cyclic_graph();
    let p = PropertyValue::Object { name_id: 1, object_id: -1 };
    let node = g.describe_property(&p, 1).unwrap();
    assert!(matches!(node, DisplayNode::TextLeaf { ref label, ref text } if label == "Partner" && text == "BaseClass"));
}

#[test]
fn null_reference_renders_the_null_class_leaf() {
    let g = cyclic_graph();
    let p = PropertyValue::Object { name_id: 1, object_id: 0 };
    let node = g.describe_property(&p, 1).unwrap();
    assert!(matches!(node, DisplayNode::TextLeaf { ref text, .. } if text == "Class"));
}

#[test]
fn array_and_struct_fields_render_as_labelled_trees() {
    let g = cyclic_graph();
    let p = PropertyValue::Array {
        name_id: 3,
        array: vec![
            ArrayItem::Int { value: 4 },
            ArrayItem::Str { string: "hi".to_string() },
            ArrayItem::Object { object_id: 0 },
        ],
    };
    let node = g.describe_property(&p, 1).unwrap();
    match node {
        DisplayNode::Tree { label, children } => {
            assert_eq!(label, "Array : Health");
            assert_eq!(children.len(), 3);
            assert!(matches!(children[0], DisplayNode::IntEditor { value: 4, .. }));
            assert!(matches!(children[2], DisplayNode::TextLeaf { ref text, .. } if text == "Null"));
        }
        _ => panic!("expected a tree"),
    }

    let p = PropertyValue::Struct {
        name_id: 3,
        struct_name_id: 1,
        value: StructValue::Rotator { pitch: 1, yaw: 2, roll: 3 },
    };
    let node = g.describe_property(&p, 1).unwrap();
    match node {
        DisplayNode::Tree { label, children } => {
            assert_eq!(label, "Partner : Health");
            assert_eq!(children.len(), 3);
            assert!(matches!(children[0], DisplayNode::FloatEditor { bits: 1, .. }));
        }
        _ => panic!("expected a tree"),
    }
}

#[test]
fn name_fields_render_both_names() {
    let g = cyclic_graph();
    let p = PropertyValue::Name { name_id: 1, value_name_id: 4 };
    let node = g.describe_property(&p, 1).unwrap();
    assert!(matches!(node, DisplayNode::TextLeaf { ref label, ref text } if label == "Partner" && text == "BaseClass"));
}

#[test]
fn objects_named_finds_every_root() {
    let g = cyclic_graph();
    assert_eq!(g.objects_named("CurrentGame"), vec![1]);
    assert_eq!(g.objects_named("Other"), vec![2]);
    assert_eq!(g.objects_named("Nobody"), Vec::<i32>::new());
}

#[test]
fn empty_array_shows_a_single_empty_marker() {
    let g = cyclic_graph();
    let p = PropertyValue::Array { name_id: 3, array: vec![] };
    let node = g.describe_property(&p, 1).unwrap();
    match node {
        DisplayNode::Tree { label, children } => {
            assert_eq!(label, "Array : Health");
            assert_eq!(children.len(), 1);
            assert!(matches!(children[0], DisplayNode::TextLeaf { ref text, .. } if text == "Empty"));
        }
        _ => panic!("expected a tree"),
    }
}
