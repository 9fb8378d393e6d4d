//! The tagged value model: the closed unions that represent one decoded
//! field (`PropertyValue`), one bare array element (`ArrayItem`) and one
//! nested record (`StructValue`), plus the type-safe edit dispatch that
//! mutates a payload without ever changing a value's variant tag.
//!
//! Scalar fields that the underlying format stores as 32-bit floats are
//! carried here as their raw bit patterns (`u32`); interpreting the bits is
//! the editing surface's concern, not this model's.

use vstd::prelude::*;

verus! {

/// One element of an array-valued field.  Unlike `PropertyValue` an array
/// item carries no owning field name.
pub enum ArrayItem {
    Int { value: i32 },
    Object { object_id: i32 },
    Vector { x: u32, y: u32, z: u32 },
    Str { string: String },
    Properties { properties: Vec<PropertyValue> },
}

/// A nested record: three fixed-shape math encodings and one open-ended
/// property list for arbitrary nested objects.
pub enum StructValue {
    LinearColor { r: u32, g: u32, b: u32, a: u32 },
    Vector { x: u32, y: u32, z: u32 },
    Rotator { pitch: u32, yaw: u32, roll: u32 },
    Properties { properties: Vec<PropertyValue> },
}

/// One named field of a decoded object.  Every variant carries the owning
/// field's name identifier for display; the variant tag is fixed by the
/// source format at construction time and never changes during editing.
pub enum PropertyValue {
    Array { name_id: i32, array: Vec<ArrayItem> },
    Bool { name_id: i32, value: bool },
    Float { name_id: i32, bits: u32 },
    Int { name_id: i32, value: i32 },
    Name { name_id: i32, value_name_id: i32 },
    Object { name_id: i32, object_id: i32 },
    Str { name_id: i32, string: String },
    StringRef { name_id: i32, value: i32 },
    Struct { name_id: i32, struct_name_id: i32, value: StructValue },
}

/// The variant tag of a `PropertyValue`, on its own so that contracts can
/// state that editing preserves it.
#[derive(Clone, Copy, PartialEq, Eq, Structural, Debug)]
pub enum PropertyTag {
    Array,
    Bool,
    Float,
    Int,
    Name,
    Object,
    Str,
    StringRef,
    Struct,
}

/// A dynamically-typed edit payload, tagged with the value domain it was
/// generated for.  The receiving value matches the tag against its own
/// domain and silently drops a mismatched request.
pub enum CallbackType {
    Bool { value: bool },
    Int { value: i32 },
    Float { bits: u32 },
    Str { string: String },
}

impl PropertyValue {
    /// The value's variant tag.
    pub open spec fn spec_tag(self) -> PropertyTag {
        match self {
            PropertyValue::Array { .. } => PropertyTag::Array,
            PropertyValue::Bool { .. } => PropertyTag::Bool,
            PropertyValue::Float { .. } => PropertyTag::Float,
            PropertyValue::Int { .. } => PropertyTag::Int,
            PropertyValue::Name { .. } => PropertyTag::Name,
            PropertyValue::Object { .. } => PropertyTag::Object,
            PropertyValue::Str { .. } => PropertyTag::Str,
            PropertyValue::StringRef { .. } => PropertyTag::StringRef,
            PropertyValue::Struct { .. } => PropertyTag::Struct,
        }
    }

    /// The owning field's name identifier.
    pub open spec fn spec_name_id(self) -> i32 {
        match self {
            PropertyValue::Array { name_id, .. } => name_id,
            PropertyValue::Bool { name_id, .. } => name_id,
            PropertyValue::Float { name_id, .. } => name_id,
            PropertyValue::Int { name_id, .. } => name_id,
            PropertyValue::Name { name_id, .. } => name_id,
            PropertyValue::Object { name_id, .. } => name_id,
            PropertyValue::Str { name_id, .. } => name_id,
            PropertyValue::StringRef { name_id, .. } => name_id,
            PropertyValue::Struct { name_id, .. } => name_id,
        }
    }
}

/// The variant tag of an `ArrayItem`, on its own so that contracts can
/// state that editing preserves it.
#[derive(Clone, Copy, PartialEq, Eq, Structural, Debug)]
pub enum ItemTag {
    Int,
    Object,
    Vector,
    Str,
    Properties,
}

/// The variant tag of a `StructValue`, on its own so that contracts can
/// state that editing preserves it.
#[derive(Clone, Copy, PartialEq, Eq, Structural, Debug)]
pub enum StructTag {
    LinearColor,
    Vector,
    Rotator,
    Properties,
}

impl ArrayItem {
    /// The item's variant tag.
    pub open spec fn spec_tag(self) -> ItemTag {
        match self {
            ArrayItem::Int { .. } => ItemTag::Int,
            ArrayItem::Object { .. } => ItemTag::Object,
            ArrayItem::Vector { .. } => ItemTag::Vector,
            ArrayItem::Str { .. } => ItemTag::Str,
            ArrayItem::Properties { .. } => ItemTag::Properties,
        }
    }
}

impl StructValue {
    /// The record's variant tag.
    pub open spec fn spec_tag(self) -> StructTag {
        match self {
            StructValue::LinearColor { .. } => StructTag::LinearColor,
            StructValue::Vector { .. } => StructTag::Vector,
            StructValue::Rotator { .. } => StructTag::Rotator,
            StructValue::Properties { .. } => StructTag::Properties,
        }
    }
}

/// What a type-safe edit does: on a tag match the payload is replaced and
/// the change is reported; on a mismatch the value is left untouched and the
/// request is dropped without error.  Editable leaves are the boolean, the
/// two integers (plain and string-reference), the float bits and the text;
/// everything else is a container or a reference and takes no direct edit.
pub open spec fn spec_apply_edit(p: PropertyValue, e: CallbackType) -> (PropertyValue, bool) {
    match (p, e) {
        (PropertyValue::Bool { name_id, .. }, CallbackType::Bool { value }) => (
            PropertyValue::Bool { name_id, value },
            true,
        ),
        (PropertyValue::Int { name_id, .. }, CallbackType::Int { value }) => (
            PropertyValue::Int { name_id, value },
            true,
        ),
        (PropertyValue::StringRef { name_id, .. }, CallbackType::Int { value }) => (
            PropertyValue::StringRef { name_id, value },
            true,
        ),
        (PropertyValue::Float { name_id, .. }, CallbackType::Float { bits }) => (
            PropertyValue::Float { name_id, bits },
            true,
        ),
        (PropertyValue::Str { name_id, .. }, CallbackType::Str { string }) => (
            PropertyValue::Str { name_id, string },
            true,
        ),
        _ => (p, false),
    }
}

impl PropertyValue {
    /// The owning field's name identifier.
    pub fn name_id(&self) -> (r: i32)
        ensures
            r == self.spec_name_id(),
    {
        match self {
            PropertyValue::Array { name_id, .. } => *name_id,
            PropertyValue::Bool { name_id, .. } => *name_id,
            PropertyValue::Float { name_id, .. } => *name_id,
            PropertyValue::Int { name_id, .. } => *name_id,
            PropertyValue::Name { name_id, .. } => *name_id,
            PropertyValue::Object { name_id, .. } => *name_id,
            PropertyValue::Str { name_id, .. } => *name_id,
            PropertyValue::StringRef { name_id, .. } => *name_id,
            PropertyValue::Struct { name_id, .. } => *name_id,
        }
    }

    /// Apply a dynamically-typed edit to this value.  The variant tag is
    /// preserved in every case; a mismatched payload leaves the value
    /// unchanged and reports no change.
    pub fn apply_edit(&mut self, edit: CallbackType) -> (changed: bool)
        ensures
            (*final(self), changed) == spec_apply_edit(*old(self), edit),
            final(self).spec_tag() == old(self).spec_tag(),
    {
        match (&mut *self, edit) {
            (PropertyValue::Bool { value, .. }, CallbackType::Bool { value: v }) => {
                *value = v;
                true
            },
            (PropertyValue::Int { value, .. }, CallbackType::Int { value: v }) => {
                *value = v;
                true
            },
            (PropertyValue::StringRef { value, .. }, CallbackType::Int { value: v }) => {
                *value = v;
                true
            },
            (PropertyValue::Float { bits, .. }, CallbackType::Float { bits: b }) => {
                *bits = b;
                true
            },
            (PropertyValue::Str { string, .. }, CallbackType::Str { string: s }) => {
                *string = s;
                true
            },
            _ => false,
        }
    }
}

/// What a type-safe edit does to a bare array item: the integer and text
/// leaves take a matching payload; every other item is a container or a
/// reference and drops the request unchanged.
pub open spec fn spec_apply_item_edit(it: ArrayItem, e: CallbackType) -> (ArrayItem, bool) {
    match (it, e) {
        (ArrayItem::Int { .. }, CallbackType::Int { value }) => (ArrayItem::Int { value }, true),
        (ArrayItem::Str { .. }, CallbackType::Str { string }) => (ArrayItem::Str { string }, true),
        _ => (it, false),
    }
}

/// What a component edit does to an array item: only the fixed-shape
/// vector item has numeric components, addressed `0..3` in display order,
/// and each takes only a float payload.
pub open spec fn spec_apply_item_component_edit(it: ArrayItem, component: int, e: CallbackType) -> (
    ArrayItem,
    bool,
) {
    match (it, e) {
        (ArrayItem::Vector { x, y, z }, CallbackType::Float { bits }) => {
            if component == 0 {
                (ArrayItem::Vector { x: bits, y, z }, true)
            } else if component == 1 {
                (ArrayItem::Vector { x, y: bits, z }, true)
            } else if component == 2 {
                (ArrayItem::Vector { x, y, z: bits }, true)
            } else {
                (it, false)
            }
        },
        _ => (it, false),
    }
}

impl ArrayItem {
    /// Apply a dynamically-typed edit to this bare item.  The variant tag
    /// is preserved in every case; a mismatched payload leaves the item
    /// unchanged and reports no change.
    pub fn apply_edit(&mut self, edit: CallbackType) -> (changed: bool)
        ensures
            (*final (self), changed) == spec_apply_item_edit(*old(self), edit),
            final (self).spec_tag() == old(self).spec_tag(),
    {
        match (&mut *self, edit) {
            (ArrayItem::Int { value }, CallbackType::Int { value: v }) => {
                *value = v;
                true
            },
            (ArrayItem::Str { string }, CallbackType::Str { string: s }) => {
                *string = s;
                true
            },
            _ => false,
        }
    }

    /// Apply a float edit to one numeric component of a vector item; any
    /// other item, component or payload is a silent no-op.
    pub fn apply_component_edit(&mut self, component: usize, edit: CallbackType) -> (changed: bool)
        ensures
            (*final (self), changed) == spec_apply_item_component_edit(
                *old(self),
                component as int,
                edit,
            ),
            final (self).spec_tag() == old(self).spec_tag(),
    {
        match (&mut *self, edit) {
            (ArrayItem::Vector { x, y, z }, CallbackType::Float { bits }) => {
                if component == 0 {
                    *x = bits;
                    true
                } else if component == 1 {
                    *y = bits;
                    true
                } else if component == 2 {
                    *z = bits;
                    true
                } else {
                    false
                }
            },
            _ => false,
        }
    }
}

/// What a component edit does to a nested record: the three fixed-shape
/// math records have numeric components, addressed in display order
/// (`r,g,b,a` for a color; `x,y,z` for a vector; `pitch,yaw,roll` for a
/// rotator), and each takes only a float payload.  The open-ended property
/// list has no direct components: its fields carry their own edits.
pub open spec fn spec_apply_struct_component_edit(
    sv: StructValue,
    component: int,
    e: CallbackType,
) -> (StructValue, bool) {
    match (sv, e) {
        (StructValue::LinearColor { r, g, b, a }, CallbackType::Float { bits }) => {
            if component == 0 {
                (StructValue::LinearColor { r: bits, g, b, a }, true)
            } else if component == 1 {
                (StructValue::LinearColor { r, g: bits, b, a }, true)
            } else if component == 2 {
                (StructValue::LinearColor { r, g, b: bits, a }, true)
            } else if component == 3 {
                (StructValue::LinearColor { r, g, b, a: bits }, true)
            } else {
                (sv, false)
            }
        },
        (StructValue::Vector { x, y, z }, CallbackType::Float { bits }) => {
            if component == 0 {
                (StructValue::Vector { x: bits, y, z }, true)
            } else if component == 1 {
                (StructValue::Vector { x, y: bits, z }, true)
            } else if component == 2 {
                (StructValue::Vector { x, y, z: bits }, true)
            } else {
                (sv, false)
            }
        },
        (StructValue::Rotator { pitch, yaw, roll }, CallbackType::Float { bits }) => {
            if component == 0 {
                (StructValue::Rotator { pitch: bits, yaw, roll }, true)
            } else if component == 1 {
                (StructValue::Rotator { pitch, yaw: bits, roll }, true)
            } else if component == 2 {
                (StructValue::Rotator { pitch, yaw, roll: bits }, true)
            } else {
                (sv, false)
            }
        },
        _ => (sv, false),
    }
}

impl StructValue {
    /// Apply a float edit to one numeric component of a math record; any
    /// other record, component or payload is a silent no-op.  The variant
    /// tag is preserved in every case.
    pub fn apply_component_edit(&mut self, component: usize, edit: CallbackType) -> (changed: bool)
        ensures
            (*final (self), changed) == spec_apply_struct_component_edit(
                *old(self),
                component as int,
                edit,
            ),
            final (self).spec_tag() == old(self).spec_tag(),
    {
        match (&mut *self, edit) {
            (StructValue::LinearColor { r, g, b, a }, CallbackType::Float { bits }) => {
                if component == 0 {
                    *r = bits;
                    true
                } else if component == 1 {
                    *g = bits;
                    true
                } else if component == 2 {
                    *b = bits;
                    true
                } else if component == 3 {
                    *a = bits;
                    true
                } else {
                    false
                }
            },
            (StructValue::Vector { x, y, z }, CallbackType::Float { bits }) => {
                if component == 0 {
                    *x = bits;
                    true
                } else if component == 1 {
                    *y = bits;
                    true
                } else if component == 2 {
                    *z = bits;
                    true
                } else {
                    false
                }
            },
            (StructValue::Rotator { pitch, yaw, roll }, CallbackType::Float { bits }) => {
                if component == 0 {
                    *pitch = bits;
                    true
                } else if component == 1 {
                    *yaw = bits;
                    true
                } else if component == 2 {
                    *roll = bits;
                    true
                } else {
                    false
                }
            },
            _ => false,
        }
    }
}

} // verus!
