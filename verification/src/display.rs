//! The introspection capability: every value describes itself as a display
//! node — a label with a typed leaf edit affordance, or a labelled tree of
//! child nodes — and a single depth-first walk renders any object graph
//! without per-type branches.
//!
//! Object references make the walk a graph traversal, and the graph may be
//! cyclic; a depth budget bounds every descent through an object reference,
//! so the walk terminates on every input and an exhausted budget simply
//! stops descending (a soft limit, not an error).  An identifier that does
//! not resolve aborts the walk with `UnknownIdentifier`.

use vstd::prelude::*;
use vstd::string::StringExecFns;
use crate::value::{PropertyValue, ArrayItem, StructValue};
use crate::resolver::{Resolver, ResolveError};

verus! {

/// Structural size of a property value, used as a termination measure for
/// the traversal within one depth level.
pub open spec fn prop_height(p: PropertyValue) -> nat
    decreases p,
{
    match p {
        PropertyValue::Array { array, .. } => 2 + items_seq_height(array@),
        PropertyValue::Struct { value, .. } => 2 + struct_height(value),
        _ => 1,
    }
}

/// Total size of a sequence of property values.
pub open spec fn props_seq_height(s: Seq<PropertyValue>) -> nat
    decreases s,
{
    if s.len() == 0 {
        0
    } else {
        prop_height(s.first()) + props_seq_height(s.drop_first())
    }
}

/// Structural size of an array item.
pub open spec fn item_height(it: ArrayItem) -> nat
    decreases it,
{
    match it {
        ArrayItem::Properties { properties } => 2 + props_seq_height(properties@),
        _ => 1,
    }
}

/// Total size of a sequence of array items.
pub open spec fn items_seq_height(s: Seq<ArrayItem>) -> nat
    decreases s,
{
    if s.len() == 0 {
        0
    } else {
        item_height(s.first()) + items_seq_height(s.drop_first())
    }
}

/// Structural size of a struct value.
pub open spec fn struct_height(sv: StructValue) -> nat
    decreases sv,
{
    match sv {
        StructValue::Properties { properties } => 2 + props_seq_height(properties@),
        _ => 1,
    }
}

/// An element's size is bounded by its sequence's size.
pub proof fn lemma_prop_height_le(s: Seq<PropertyValue>, i: int)
    requires
        0 <= i < s.len(),
    ensures
        prop_height(s[i]) <= props_seq_height(s),
    decreases i,
{
    if i == 0 {
        assert(s[0] == s.first());
    } else {
        lemma_prop_height_le(s.drop_first(), i - 1);
        assert(s.drop_first()[i - 1] == s[i]);
    }
}

/// An element's size is bounded by its sequence's size.
pub proof fn lemma_item_height_le(s: Seq<ArrayItem>, i: int)
    requires
        0 <= i < s.len(),
    ensures
        item_height(s[i]) <= items_seq_height(s),
    decreases i,
{
    if i == 0 {
        assert(s[0] == s.first());
    } else {
        lemma_item_height_le(s.drop_first(), i - 1);
        assert(s.drop_first()[i - 1] == s[i]);
    }
}

/// One decimal digit as text.
pub open spec fn digit_seq(d: nat) -> Seq<char> {
    if d == 0 {
        "0"@
    } else if d == 1 {
        "1"@
    } else if d == 2 {
        "2"@
    } else if d == 3 {
        "3"@
    } else if d == 4 {
        "4"@
    } else if d == 5 {
        "5"@
    } else if d == 6 {
        "6"@
    } else if d == 7 {
        "7"@
    } else if d == 8 {
        "8"@
    } else {
        "9"@
    }
}

/// The decimal rendering of a non-negative number, most significant digit
/// first, with no leading zeros (a lone zero for zero itself).
pub open spec fn decimal_digits(n: nat) -> Seq<char>
    decreases n,
{
    if n < 10 {
        digit_seq(n)
    } else {
        decimal_digits(n / 10) + digit_seq(n % 10)
    }
}

/// The decimal rendering of a signed identifier: a minus sign before the
/// magnitude for negative values.
pub open spec fn i32_decimal(v: i32) -> Seq<char> {
    if v >= 0 {
        decimal_digits(v as nat)
    } else {
        "-"@ + decimal_digits((-(v as int)) as nat)
    }
}

/// One decimal digit as text, in executable form.
fn digit_str(d: u32) -> (res: &'static str)
    requires
        d < 10,
    ensures
        res@ == digit_seq(d as nat),
{
    match d {
        0u32 => "0",
        1u32 => "1",
        2u32 => "2",
        3u32 => "3",
        4u32 => "4",
        5u32 => "5",
        6u32 => "6",
        7u32 => "7",
        8u32 => "8",
        _ => "9",
    }
}

/// The decimal rendering of a non-negative number, in executable form.
fn decimal_u32(n: u32) -> (res: String)
    ensures
        res@ == decimal_digits(n as nat),
    decreases n,
{
    if n < 10 {
        digit_str(n).to_owned()
    } else {
        let mut s = decimal_u32(n / 10);
        s.append(digit_str(n % 10));
        s
    }
}

/// The decimal rendering of a signed identifier, in executable form.
pub fn i32_to_decimal(v: i32) -> (res: String)
    ensures
        res@ == i32_decimal(v),
{
    if v >= 0 {
        decimal_u32(v as u32)
    } else {
        // magnitude in a wider range to survive the minimum value
        let wide: i64 = -(v as i64);
        let magnitude: u32 = wide as u32;
        proof {
            assert(magnitude as int == -(v as int));
        }
        let mut s = "-".to_owned();
        let digits = decimal_u32(magnitude);
        s.append(digits.as_str());
        s
    }
}

/// The abstract form of a display node, over which the traversal is
/// specified.
pub enum SpecNode {
    BoolEditor { label: Seq<char>, value: bool },
    IntEditor { label: Seq<char>, value: i32 },
    FloatEditor { label: Seq<char>, bits: u32 },
    TextEditor { label: Seq<char>, text: Seq<char> },
    TextLeaf { label: Seq<char>, text: Seq<char> },
    Tree { label: Seq<char>, children: Seq<SpecNode> },
    ObjectTree { label: Seq<char>, children: Seq<SpecNode> },
    AddEntry,
}

/// One node handed to the generic editing surface: a label together with
/// either a typed leaf edit affordance (checkbox, numeric box, text box), a
/// read-only text leaf, or a sequence of child nodes.  `ObjectTree` marks a
/// dereferenced object, `Tree` every other container, and `AddEntry` the
/// trailing "add" affordance of a collection panel.
#[derive(Debug, PartialEq)]
pub enum DisplayNode {
    BoolEditor { label: String, value: bool },
    IntEditor { label: String, value: i32 },
    FloatEditor { label: String, bits: u32 },
    TextEditor { label: String, text: String },
    TextLeaf { label: String, text: String },
    Tree { label: String, children: Vec<DisplayNode> },
    ObjectTree { label: String, children: Vec<DisplayNode> },
    AddEntry,
}

/// The abstract form of a display node.
pub open spec fn node_view(d: DisplayNode) -> SpecNode
    decreases d,
{
    match d {
        DisplayNode::BoolEditor { label, value } => SpecNode::BoolEditor { label: label@, value },
        DisplayNode::IntEditor { label, value } => SpecNode::IntEditor { label: label@, value },
        DisplayNode::FloatEditor { label, bits } => SpecNode::FloatEditor { label: label@, bits },
        DisplayNode::TextEditor { label, text } => SpecNode::TextEditor {
            label: label@,
            text: text@,
        },
        DisplayNode::TextLeaf { label, text } => SpecNode::TextLeaf { label: label@, text: text@ },
        DisplayNode::Tree { label, children } => SpecNode::Tree {
            label: label@,
            children: nodes_view(children@),
        },
        DisplayNode::ObjectTree { label, children } => SpecNode::ObjectTree {
            label: label@,
            children: nodes_view(children@),
        },
        DisplayNode::AddEntry => SpecNode::AddEntry,
    }
}

/// The abstract form of a sequence of display nodes.
pub open spec fn nodes_view(s: Seq<DisplayNode>) -> Seq<SpecNode>
    decreases s,
{
    if s.len() == 0 {
        Seq::empty()
    } else {
        nodes_view(s.drop_last()).push(node_view(s.last()))
    }
}

impl View for DisplayNode {
    type V = SpecNode;

    open spec fn view(&self) -> SpecNode {
        node_view(*self)
    }
}

/// How deeply object dereferences nest below a node: the measure that the
/// traversal's depth budget bounds.
pub open spec fn object_depth(n: SpecNode) -> nat
    decreases n,
{
    match n {
        SpecNode::Tree { children, .. } => seq_object_depth(children),
        SpecNode::ObjectTree { children, .. } => 1 + seq_object_depth(children),
        _ => 0,
    }
}

/// The deepest object nesting among a sequence of nodes.
pub open spec fn seq_object_depth(s: Seq<SpecNode>) -> nat
    decreases s,
{
    if s.len() == 0 {
        0
    } else if seq_object_depth(s.drop_last()) >= object_depth(s.last()) {
        seq_object_depth(s.drop_last())
    } else {
        object_depth(s.last())
    }
}

/// Appending a node appends its abstract form.
pub proof fn lemma_nodes_view_push(s: Seq<DisplayNode>, n: DisplayNode)
    ensures
        nodes_view(s.push(n)) == nodes_view(s).push(node_view(n)),
{
    assert(s.push(n).drop_last() =~= s);
    assert(s.push(n).last() == n);
}

/// Appending a node takes the maximum of the object depths.
pub proof fn lemma_seq_object_depth_push(s: Seq<SpecNode>, n: SpecNode)
    ensures
        seq_object_depth(s.push(n)) == if seq_object_depth(s) >= object_depth(n) {
            seq_object_depth(s)
        } else {
            object_depth(n)
        },
{
    assert(s.push(n).drop_last() =~= s);
    assert(s.push(n).last() == n);
}

/// Concatenating nodes concatenates their abstract forms.
pub proof fn lemma_nodes_view_concat(s1: Seq<DisplayNode>, s2: Seq<DisplayNode>)
    ensures
        nodes_view(s1 + s2) == nodes_view(s1) + nodes_view(s2),
    decreases s2.len(),
{
    if s2.len() == 0 {
        assert(s1 + s2 =~= s1);
        assert(nodes_view(s1) + nodes_view(s2) =~= nodes_view(s1));
    } else {
        lemma_nodes_view_concat(s1, s2.drop_last());
        assert((s1 + s2).drop_last() =~= s1 + s2.drop_last());
        assert((s1 + s2).last() == s2.last());
        assert(nodes_view(s1) + nodes_view(s2.drop_last()).push(node_view(s2.last())) =~= (
        nodes_view(s1) + nodes_view(s2.drop_last())).push(node_view(s2.last())));
        assert(nodes_view(s2).drop_last() =~= nodes_view(s2.drop_last()));
        assert(nodes_view(s2) == nodes_view(s2.drop_last()).push(node_view(s2.last())));
    }
}

/// A traversal result, in abstract form.
pub open spec fn res_view(r: Result<DisplayNode, ResolveError>) -> Result<SpecNode, ResolveError> {
    match r {
        Ok(n) => Ok(node_view(n)),
        Err(e) => Err(e),
    }
}

/// A traversal result carrying several nodes, in abstract form.
pub open spec fn vec_res_view(r: Result<Vec<DisplayNode>, ResolveError>) -> Result<
    Seq<SpecNode>,
    ResolveError,
> {
    match r {
        Ok(v) => Ok(nodes_view(v@)),
        Err(e) => Err(e),
    }
}

/// The node of a fixed three-component math value.
pub open spec fn spec_vector_node(label: Seq<char>, x: u32, y: u32, z: u32) -> SpecNode {
    SpecNode::Tree {
        label,
        children: seq![
            SpecNode::FloatEditor { label: "x"@, bits: x },
            SpecNode::FloatEditor { label: "y"@, bits: y },
            SpecNode::FloatEditor { label: "z"@, bits: z },
        ],
    }
}

/// What describing an object yields: its resolved name as the label; with
/// budget left, one child per field in storage order; with the budget
/// exhausted, a plain leaf so a cyclic reference stops descending.
pub open spec fn spec_describe_object(g: Resolver, id: i32, depth: u32) -> Result<
    SpecNode,
    ResolveError,
>
    decreases depth, 0int, 0int,
{
    if !g.object_ok(id) {
        Err(ResolveError::UnknownIdentifier)
    } else {
        let rec = g.objects@[id - 1];
        if !g.name_ok(rec.object_name_id) {
            Err(ResolveError::UnknownIdentifier)
        } else {
            let label = g.spec_name(rec.object_name_id);
            if depth == 0 {
                Ok(SpecNode::TextLeaf { label, text: label })
            } else {
                match spec_describe_fields(
                    g,
                    rec.fields@,
                    rec.fields@.len() as int,
                    (depth - 1) as u32,
                ) {
                    Ok(children) => Ok(SpecNode::ObjectTree { label, children }),
                    Err(e) => Err(e),
                }
            }
        }
    }
}

/// The nodes of the first `i` values of a field list, in order; the first
/// unresolvable identifier aborts the walk.
pub open spec fn spec_describe_fields(
    g: Resolver,
    fields: Seq<PropertyValue>,
    i: int,
    depth: u32,
) -> Result<Seq<SpecNode>, ResolveError>
    decreases depth, props_seq_height(fields) + 1, i,
        via spec_describe_fields_decreases
{
    if i <= 0 || i > fields.len() {
        Ok(Seq::empty())
    } else {
        match spec_describe_fields(g, fields, i - 1, depth) {
            Err(e) => Err(e),
            Ok(s) => match spec_describe_property(g, fields[i - 1], depth) {
                Err(e) => Err(e),
                Ok(n) => Ok(s.push(n)),
            },
        }
    }
}

#[via_fn]
proof fn spec_describe_fields_decreases(g: Resolver, fields: Seq<PropertyValue>, i: int, depth: u32) {
    if 0 < i <= fields.len() {
        lemma_prop_height_le(fields, i - 1);
    }
}

/// What describing one field yields, by its variant tag: scalars become
/// typed leaf editors, names and class references read-only leaves, arrays
/// and structs labelled trees, and a positive object reference a tree
/// around the referenced object's own description.
pub open spec fn spec_describe_property(g: Resolver, p: PropertyValue, depth: u32) -> Result<
    SpecNode,
    ResolveError,
>
    decreases depth, prop_height(p), 0int,
{
    if !g.name_ok(p.spec_name_id()) {
        Err(ResolveError::UnknownIdentifier)
    } else {
        let label = g.spec_name(p.spec_name_id());
        match p {
            PropertyValue::Array { array, .. } => {
                if array@.len() == 0 {
                    // an empty array shows a single marker leaf
                    Ok(
                        SpecNode::Tree {
                            label: "Array : "@ + label,
                            children: seq![
                                SpecNode::TextLeaf { label: Seq::empty(), text: "Empty"@ },
                            ],
                        },
                    )
                } else {
                    match spec_describe_items(g, array@, array@.len() as int, depth) {
                        Ok(children) => Ok(
                            SpecNode::Tree { label: "Array : "@ + label, children },
                        ),
                        Err(e) => Err(e),
                    }
                }
            },
            PropertyValue::Bool { value, .. } => Ok(SpecNode::BoolEditor { label, value }),
            PropertyValue::Float { bits, .. } => Ok(SpecNode::FloatEditor { label, bits }),
            PropertyValue::Int { value, .. } => Ok(SpecNode::IntEditor { label, value }),
            PropertyValue::Name { value_name_id, .. } => {
                if !g.name_ok(value_name_id) {
                    Err(ResolveError::UnknownIdentifier)
                } else {
                    Ok(SpecNode::TextLeaf { label, text: g.spec_name(value_name_id) })
                }
            },
            PropertyValue::Object { object_id, .. } => {
                if object_id > 0 {
                    match spec_describe_object(g, object_id, depth) {
                        Ok(n) => Ok(SpecNode::Tree { label, children: seq![n] }),
                        Err(e) => Err(e),
                    }
                } else if object_id < 0 {
                    if !g.class_ok(object_id) {
                        Err(ResolveError::UnknownIdentifier)
                    } else {
                        let cls = g.classes@[-(object_id as int) - 1];
                        if !g.name_ok(cls.class_name_id) {
                            Err(ResolveError::UnknownIdentifier)
                        } else {
                            Ok(SpecNode::TextLeaf { label, text: g.spec_name(cls.class_name_id) })
                        }
                    }
                } else {
                    Ok(SpecNode::TextLeaf { label, text: "Class"@ })
                }
            },
            PropertyValue::Str { string, .. } => Ok(SpecNode::TextEditor { label, text: string@ }),
            PropertyValue::StringRef { value, .. } => Ok(SpecNode::IntEditor { label, value }),
            PropertyValue::Struct { struct_name_id, value, .. } => {
                if !g.name_ok(struct_name_id) {
                    Err(ResolveError::UnknownIdentifier)
                } else {
                    spec_describe_struct(g, g.spec_name(struct_name_id) + " : "@ + label, value, depth)
                }
            },
        }
    }
}

/// The nodes of the first `i` items of an array, in order.
pub open spec fn spec_describe_items(
    g: Resolver,
    items: Seq<ArrayItem>,
    i: int,
    depth: u32,
) -> Result<Seq<SpecNode>, ResolveError>
    decreases depth, items_seq_height(items) + 1, i,
        via spec_describe_items_decreases
{
    if i <= 0 || i > items.len() {
        Ok(Seq::empty())
    } else {
        match spec_describe_items(g, items, i - 1, depth) {
            Err(e) => Err(e),
            Ok(s) => match spec_describe_item(g, items[i - 1], depth) {
                Err(e) => Err(e),
                Ok(n) => Ok(s.push(n)),
            },
        }
    }
}

#[via_fn]
proof fn spec_describe_items_decreases(g: Resolver, items: Seq<ArrayItem>, i: int, depth: u32) {
    if 0 < i <= items.len() {
        lemma_item_height_le(items, i - 1);
    }
}

/// What describing one bare array item yields.  Items carry no owning
/// name, so their labels are empty.
pub open spec fn spec_describe_item(g: Resolver, it: ArrayItem, depth: u32) -> Result<
    SpecNode,
    ResolveError,
>
    decreases depth, item_height(it), 0int,
{
    match it {
        ArrayItem::Int { value } => Ok(SpecNode::IntEditor { label: Seq::empty(), value }),
        ArrayItem::Object { object_id } => {
            if object_id > 0 {
                spec_describe_object(g, object_id, depth)
            } else if object_id < 0 {
                if !g.class_ok(object_id) {
                    Err(ResolveError::UnknownIdentifier)
                } else {
                    let cls = g.classes@[-(object_id as int) - 1];
                    if !g.name_ok(cls.class_name_id) {
                        Err(ResolveError::UnknownIdentifier)
                    } else {
                        Ok(
                            SpecNode::TextLeaf {
                                label: Seq::empty(),
                                text: g.spec_name(cls.class_name_id),
                            },
                        )
                    }
                }
            } else {
                Ok(SpecNode::TextLeaf { label: Seq::empty(), text: "Null"@ })
            }
        },
        ArrayItem::Vector { x, y, z } => Ok(spec_vector_node(Seq::empty(), x, y, z)),
        ArrayItem::Str { string } => Ok(SpecNode::TextEditor { label: Seq::empty(), text: string@ }),
        ArrayItem::Properties { properties } => {
            match spec_describe_fields(g, properties@, properties@.len() as int, depth) {
                Ok(children) => Ok(SpecNode::Tree { label: Seq::empty(), children }),
                Err(e) => Err(e),
            }
        },
    }
}

/// What describing a nested record yields: the three math encodings become
/// trees of their named numeric components, and the open-ended property
/// list recurses.
pub open spec fn spec_describe_struct(
    g: Resolver,
    label: Seq<char>,
    sv: StructValue,
    depth: u32,
) -> Result<SpecNode, ResolveError>
    decreases depth, struct_height(sv), 0int,
{
    match sv {
        StructValue::LinearColor { r, g: green, b, a } => Ok(
            SpecNode::Tree {
                label,
                children: seq![
                    SpecNode::FloatEditor { label: "r"@, bits: r },
                    SpecNode::FloatEditor { label: "g"@, bits: green },
                    SpecNode::FloatEditor { label: "b"@, bits: b },
                    SpecNode::FloatEditor { label: "a"@, bits: a },
                ],
            },
        ),
        StructValue::Vector { x, y, z } => Ok(spec_vector_node(label, x, y, z)),
        StructValue::Rotator { pitch, yaw, roll } => Ok(
            SpecNode::Tree {
                label,
                children: seq![
                    SpecNode::FloatEditor { label: "pitch"@, bits: pitch },
                    SpecNode::FloatEditor { label: "yaw"@, bits: yaw },
                    SpecNode::FloatEditor { label: "roll"@, bits: roll },
                ],
            },
        ),
        StructValue::Properties { properties } => {
            match spec_describe_fields(g, properties@, properties@.len() as int, depth) {
                Ok(children) => Ok(SpecNode::Tree { label, children }),
                Err(e) => Err(e),
            }
        },
    }
}

/// A numeric leaf editor over raw float bits.
fn float_leaf(text: &str, bits: u32) -> (res: DisplayNode)
    ensures
        res@ == (SpecNode::FloatEditor { label: text@, bits }),
{
    DisplayNode::FloatEditor { label: text.to_owned(), bits }
}

/// The node of a fixed three-component math value.
fn vector_node(label: String, x: u32, y: u32, z: u32) -> (res: DisplayNode)
    ensures
        res@ == spec_vector_node(label@, x, y, z),
        object_depth(res@) == 0,
{
    let mut children: Vec<DisplayNode> = Vec::new();
    let n1 = float_leaf("x", x);
    proof {
        lemma_nodes_view_push(children@, n1);
        lemma_seq_object_depth_push(nodes_view(children@), n1@);
    }
    children.push(n1);
    let n2 = float_leaf("y", y);
    proof {
        lemma_nodes_view_push(children@, n2);
        lemma_seq_object_depth_push(nodes_view(children@), n2@);
    }
    children.push(n2);
    let n3 = float_leaf("z", z);
    proof {
        lemma_nodes_view_push(children@, n3);
        lemma_seq_object_depth_push(nodes_view(children@), n3@);
    }
    children.push(n3);
    proof {
        assert(nodes_view(children@) =~= spec_vector_node(label@, x, y, z)->Tree_children);
    }
    DisplayNode::Tree { label, children }
}

impl Resolver {
    /// Describe the object behind a positive identifier: a tree labelled
    /// with the object's name, one child per field in storage order.  An
    /// exhausted depth budget yields a leaf instead of descending, so a
    /// cyclic reference is bounded; an unresolvable identifier aborts.
    pub fn describe_object(&self, object_id: i32, depth: u32) -> (res: Result<
        DisplayNode,
        ResolveError,
    >)
        ensures
            res_view(res) == spec_describe_object(*self, object_id, depth),
            res matches Ok(n) ==> object_depth(n@) <= depth,
        decreases depth, 0int, 0int,
    {
        let rec = match self.resolve_object(object_id) {
            Ok(rec) => rec,
            Err(e) => {
                return Err(e);
            },
        };
        let name = match self.resolve_name(rec.object_name_id) {
            Ok(n) => n,
            Err(e) => {
                return Err(e);
            },
        };
        if depth == 0 {
            return Ok(DisplayNode::TextLeaf { label: name.clone(), text: name.clone() });
        }
        match self.describe_fields(&rec.fields, depth - 1) {
            Ok(children) => Ok(DisplayNode::ObjectTree { label: name.clone(), children }),
            Err(e) => Err(e),
        }
    }

    /// Describe every value of a field list, in storage order.
    pub fn describe_fields(&self, fields: &Vec<PropertyValue>, depth: u32) -> (res: Result<
        Vec<DisplayNode>,
        ResolveError,
    >)
        ensures
            vec_res_view(res) == spec_describe_fields(*self, fields@, fields@.len() as int, depth),
            res matches Ok(v) ==> seq_object_depth(nodes_view(v@)) <= depth,
        decreases depth, props_seq_height(fields@) + 1, 0int,
    {
        let mut v: Vec<DisplayNode> = Vec::new();
        let mut idx: usize = 0;
        while idx < fields.len()
            invariant
                idx <= fields@.len(),
                Ok::<Seq<SpecNode>, ResolveError>(nodes_view(v@)) == spec_describe_fields(
                    *self,
                    fields@,
                    idx as int,
                    depth,
                ),
                seq_object_depth(nodes_view(v@)) <= depth,
            decreases fields@.len() - idx,
        {
            proof {
                lemma_prop_height_le(fields@, idx as int);
            }
            match self.describe_property(&fields[idx], depth) {
                Ok(n) => {
                    proof {
                        lemma_nodes_view_push(v@, n);
                        lemma_seq_object_depth_push(nodes_view(v@), n@);
                    }
                    v.push(n);
                },
                Err(e) => {
                    proof {
                        if idx as int + 1 < fields@.len() {
                            lemma_fields_error(
                                *self,
                                fields@,
                                idx as int,
                                fields@.len() as int,
                                depth,
                            );
                        }
                    }
                    return Err(e);
                },
            }
            idx = idx + 1;
        }
        Ok(v)
    }

    /// Describe one field, dispatching on its variant tag.
    pub fn describe_property(&self, p: &PropertyValue, depth: u32) -> (res: Result<
        DisplayNode,
        ResolveError,
    >)
        ensures
            res_view(res) == spec_describe_property(*self, *p, depth),
            res matches Ok(n) ==> object_depth(n@) <= depth,
        decreases depth, prop_height(*p), 0int,
    {
        let name = match self.resolve_name(p.name_id()) {
            Ok(n) => n,
            Err(e) => {
                return Err(e);
            },
        };
        match p {
            PropertyValue::Array { array, .. } => {
                if array.len() == 0 {
                    let leaf = DisplayNode::TextLeaf {
                        label: String::new(),
                        text: "Empty".to_owned(),
                    };
                    let mut children: Vec<DisplayNode> = Vec::new();
                    proof {
                        lemma_nodes_view_push(children@, leaf);
                        lemma_seq_object_depth_push(nodes_view(children@), leaf@);
                    }
                    children.push(leaf);
                    proof {
                        assert(nodes_view(children@) =~= seq![
                            SpecNode::TextLeaf { label: Seq::empty(), text: "Empty"@ },
                        ]);
                    }
                    Ok(
                        DisplayNode::Tree {
                            label: "Array : ".to_owned().concat(name.as_str()),
                            children,
                        },
                    )
                } else {
                    match self.describe_items(array, depth) {
                        Ok(children) => Ok(
                            DisplayNode::Tree {
                                label: "Array : ".to_owned().concat(name.as_str()),
                                children,
                            },
                        ),
                        Err(e) => Err(e),
                    }
                }
            },
            PropertyValue::Bool { value, .. } => Ok(
                DisplayNode::BoolEditor { label: name.clone(), value: *value },
            ),
            PropertyValue::Float { bits, .. } => Ok(
                DisplayNode::FloatEditor { label: name.clone(), bits: *bits },
            ),
            PropertyValue::Int { value, .. } => Ok(
                DisplayNode::IntEditor { label: name.clone(), value: *value },
            ),
            PropertyValue::Name { value_name_id, .. } => {
                match self.resolve_name(*value_name_id) {
                    Ok(value_name) => Ok(
                        DisplayNode::TextLeaf { label: name.clone(), text: value_name.clone() },
                    ),
                    Err(e) => Err(e),
                }
            },
            PropertyValue::Object { object_id, .. } => {
                if *object_id > 0 {
                    match self.describe_object(*object_id, depth) {
                        Ok(n) => {
                            proof {
                                lemma_nodes_view_push(Seq::empty(), n);
                                lemma_seq_object_depth_push(Seq::empty(), n@);
                                assert(Seq::<DisplayNode>::empty().push(n) =~= seq![n]);
                            }
                            let children = vec![n];
                            proof {
                                assert(children@ == Seq::<DisplayNode>::empty().push(n));
                            }
                            Ok(DisplayNode::Tree { label: name.clone(), children })
                        },
                        Err(e) => Err(e),
                    }
                } else if *object_id < 0 {
                    let cls = match self.resolve_class(*object_id) {
                        Ok(cls) => cls,
                        Err(e) => {
                            return Err(e);
                        },
                    };
                    match self.resolve_name(cls.class_name_id) {
                        Ok(class_name) => Ok(
                            DisplayNode::TextLeaf { label: name.clone(), text: class_name.clone() },
                        ),
                        Err(e) => Err(e),
                    }
                } else {
                    Ok(DisplayNode::TextLeaf { label: name.clone(), text: "Class".to_owned() })
                }
            },
            PropertyValue::Str { string, .. } => Ok(
                DisplayNode::TextEditor { label: name.clone(), text: string.clone() },
            ),
            PropertyValue::StringRef { value, .. } => Ok(
                DisplayNode::IntEditor { label: name.clone(), value: *value },
            ),
            PropertyValue::Struct { struct_name_id, value, .. } => {
                let struct_name = match self.resolve_name(*struct_name_id) {
                    Ok(n) => n,
                    Err(e) => {
                        return Err(e);
                    },
                };
                let combined = struct_name.clone().concat(" : ").concat(name.as_str());
                self.describe_struct(combined, value, depth)
            },
        }
    }

    /// Describe every item of an array field, in order.
    pub fn describe_items(&self, items: &Vec<ArrayItem>, depth: u32) -> (res: Result<
        Vec<DisplayNode>,
        ResolveError,
    >)
        ensures
            vec_res_view(res) == spec_describe_items(*self, items@, items@.len() as int, depth),
            res matches Ok(v) ==> seq_object_depth(nodes_view(v@)) <= depth,
        decreases depth, items_seq_height(items@) + 1, 0int,
    {
        let mut v: Vec<DisplayNode> = Vec::new();
        let mut idx: usize = 0;
        while idx < items.len()
            invariant
                idx <= items@.len(),
                Ok::<Seq<SpecNode>, ResolveError>(nodes_view(v@)) == spec_describe_items(
                    *self,
                    items@,
                    idx as int,
                    depth,
                ),
                seq_object_depth(nodes_view(v@)) <= depth,
            decreases items@.len() - idx,
        {
            proof {
                lemma_item_height_le(items@, idx as int);
            }
            match self.describe_item(&items[idx], depth) {
                Ok(n) => {
                    proof {
                        lemma_nodes_view_push(v@, n);
                        lemma_seq_object_depth_push(nodes_view(v@), n@);
                    }
                    v.push(n);
                },
                Err(e) => {
                    proof {
                        if idx as int + 1 < items@.len() {
                            lemma_items_error(*self, items@, idx as int, items@.len() as int, depth);
                        }
                    }
                    return Err(e);
                },
            }
            idx = idx + 1;
        }
        Ok(v)
    }

    /// Describe one bare array item.
    pub fn describe_item(&self, it: &ArrayItem, depth: u32) -> (res: Result<
        DisplayNode,
        ResolveError,
    >)
        ensures
            res_view(res) == spec_describe_item(*self, *it, depth),
            res matches Ok(n) ==> object_depth(n@) <= depth,
        decreases depth, item_height(*it), 0int,
    {
        match it {
            ArrayItem::Int { value } => Ok(
                DisplayNode::IntEditor { label: String::new(), value: *value },
            ),
            ArrayItem::Object { object_id } => {
                if *object_id > 0 {
                    self.describe_object(*object_id, depth)
                } else if *object_id < 0 {
                    let cls = match self.resolve_class(*object_id) {
                        Ok(cls) => cls,
                        Err(e) => {
                            return Err(e);
                        },
                    };
                    match self.resolve_name(cls.class_name_id) {
                        Ok(class_name) => Ok(
                            DisplayNode::TextLeaf {
                                label: String::new(),
                                text: class_name.clone(),
                            },
                        ),
                        Err(e) => Err(e),
                    }
                } else {
                    Ok(DisplayNode::TextLeaf { label: String::new(), text: "Null".to_owned() })
                }
            },
            ArrayItem::Vector { x, y, z } => Ok(vector_node(String::new(), *x, *y, *z)),
            ArrayItem::Str { string } => Ok(
                DisplayNode::TextEditor { label: String::new(), text: string.clone() },
            ),
            ArrayItem::Properties { properties } => {
                match self.describe_fields(properties, depth) {
                    Ok(children) => Ok(DisplayNode::Tree { label: String::new(), children }),
                    Err(e) => Err(e),
                }
            },
        }
    }

    /// Describe one nested record under a prepared label.
    pub fn describe_struct(&self, label: String, sv: &StructValue, depth: u32) -> (res: Result<
        DisplayNode,
        ResolveError,
    >)
        ensures
            res_view(res) == spec_describe_struct(*self, label@, *sv, depth),
            res matches Ok(n) ==> object_depth(n@) <= depth,
        decreases depth, struct_height(*sv), 0int,
    {
        match sv {
            StructValue::LinearColor { r, g, b, a } => {
                let mut children: Vec<DisplayNode> = Vec::new();
                let n1 = float_leaf("r", *r);
                proof {
                    lemma_nodes_view_push(children@, n1);
                    lemma_seq_object_depth_push(nodes_view(children@), n1@);
                }
                children.push(n1);
                let n2 = float_leaf("g", *g);
                proof {
                    lemma_nodes_view_push(children@, n2);
                    lemma_seq_object_depth_push(nodes_view(children@), n2@);
                }
                children.push(n2);
                let n3 = float_leaf("b", *b);
                proof {
                    lemma_nodes_view_push(children@, n3);
                    lemma_seq_object_depth_push(nodes_view(children@), n3@);
                }
                children.push(n3);
                let n4 = float_leaf("a", *a);
                proof {
                    lemma_nodes_view_push(children@, n4);
                    lemma_seq_object_depth_push(nodes_view(children@), n4@);
                }
                children.push(n4);
                proof {
                    assert(nodes_view(children@) =~= spec_describe_struct(
                        *self,
                        label@,
                        *sv,
                        depth,
                    )->Ok_0->Tree_children);
                }
                Ok(DisplayNode::Tree { label, children })
            },
            StructValue::Vector { x, y, z } => Ok(vector_node(label, *x, *y, *z)),
            StructValue::Rotator { pitch, yaw, roll } => {
                let mut children: Vec<DisplayNode> = Vec::new();
                let n1 = float_leaf("pitch", *pitch);
                proof {
                    lemma_nodes_view_push(children@, n1);
                    lemma_seq_object_depth_push(nodes_view(children@), n1@);
                }
                children.push(n1);
                let n2 = float_leaf("yaw", *yaw);
                proof {
                    lemma_nodes_view_push(children@, n2);
                    lemma_seq_object_depth_push(nodes_view(children@), n2@);
                }
                children.push(n2);
                let n3 = float_leaf("roll", *roll);
                proof {
                    lemma_nodes_view_push(children@, n3);
                    lemma_seq_object_depth_push(nodes_view(children@), n3@);
                }
                children.push(n3);
                proof {
                    assert(nodes_view(children@) =~= spec_describe_struct(
                        *self,
                        label@,
                        *sv,
                        depth,
                    )->Ok_0->Tree_children);
                }
                Ok(DisplayNode::Tree { label, children })
            },
            StructValue::Properties { properties } => {
                match self.describe_fields(properties, depth) {
                    Ok(children) => Ok(DisplayNode::Tree { label, children }),
                    Err(e) => Err(e),
                }
            },
        }
    }
}

/// The identifiers, in table order, of the first `n` objects whose own
/// name is `wanted`: where the raw display starts its walk.
pub open spec fn spec_objects_named(g: Resolver, wanted: Seq<char>, n: int) -> Seq<i32>
    decreases n,
{
    if n <= 0 {
        Seq::empty()
    } else {
        let prev = spec_objects_named(g, wanted, n - 1);
        let id = n as i32;
        if g.name_ok(g.objects@[n - 1].object_name_id) && g.spec_name(
            g.objects@[n - 1].object_name_id,
        ) == wanted {
            prev.push(id)
        } else {
            prev
        }
    }
}

impl Resolver {
    /// The identifiers of every object whose own name is `wanted`, in
    /// table order: the roots the raw display walks from.
    pub fn objects_named(&self, wanted: &str) -> (res: Vec<i32>)
        requires
            self.objects@.len() < 0x7fff_ffff,
        ensures
            res@ == spec_objects_named(*self, wanted@, self.objects@.len() as int),
    {
        let wanted_string = wanted.to_owned();
        let mut res: Vec<i32> = Vec::new();
        let mut i: usize = 0;
        while i < self.objects.len()
            invariant
                i <= self.objects@.len(),
                self.objects@.len() < 0x7fff_ffff,
                wanted_string@ == wanted@,
                res@ == spec_objects_named(*self, wanted@, i as int),
            decreases self.objects@.len() - i,
        {
            let object_id = (i as i32) + 1;
            proof {
                assert(object_id == (i as int + 1) as i32);
            }
            match self.resolve_name(self.objects[i].object_name_id) {
                Ok(name) => {
                    if *name == wanted_string {
                        res.push(object_id);
                        proof {
                            assert(res@ == spec_objects_named(*self, wanted@, i as int + 1));
                        }
                    } else {
                        proof {
                            assert(res@ == spec_objects_named(*self, wanted@, i as int + 1));
                        }
                    }
                },
                Err(_) => {
                    proof {
                        assert(res@ == spec_objects_named(*self, wanted@, i as int + 1));
                    }
                },
            }
            i = i + 1;
        }
        res
    }
}

/// An error at position `i` makes the whole prefix walk an error.
proof fn lemma_fields_error(g: Resolver, fields: Seq<PropertyValue>, i: int, j: int, depth: u32)
    requires
        0 <= i < j <= fields.len(),
        spec_describe_fields(g, fields, i + 1, depth) is Err,
    ensures
        spec_describe_fields(g, fields, j, depth) == spec_describe_fields(g, fields, i + 1, depth),
    decreases j,
{
    if j > i + 1 {
        lemma_fields_error(g, fields, i, j - 1, depth);
    }
}

/// An error at position `i` makes the whole prefix walk an error.
proof fn lemma_items_error(g: Resolver, items: Seq<ArrayItem>, i: int, j: int, depth: u32)
    requires
        0 <= i < j <= items.len(),
        spec_describe_items(g, items, i + 1, depth) is Err,
    ensures
        spec_describe_items(g, items, j, depth) == spec_describe_items(g, items, i + 1, depth),
    decreases j,
{
    if j > i + 1 {
        lemma_items_error(g, items, i, j - 1, depth);
    }
}

} // verus!
