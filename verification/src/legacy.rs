//! Legacy value shapes from the older save-format generation, and the
//! arena of values that collection entry handles resolve against.

use vstd::prelude::*;
use crate::value::PropertyValue;

verus! {

/// An opaque legacy placeable record: sixty bytes whose layout this model
/// does not interpret.
pub struct ArtPlaceable {
    pub _unknown: [u8; 60],
}

/// A legacy map record: a container whose fields are traversed directly.
pub struct LegacyMap {
    pub fields: Vec<PropertyValue>,
}

/// A legacy level record: a container whose fields are traversed directly.
pub struct LegacyLevel {
    pub fields: Vec<PropertyValue>,
}

/// A value that a collection entry's handle resolves to: an ordinary single
/// value, or one of the two legacy container shapes.
pub enum EntryValue {
    Single { value: PropertyValue },
    MapData { map: LegacyMap },
    LevelData { level: LegacyLevel },
}

impl EntryValue {
    /// The fields this value exposes as a labeled sub-collection, if any.
    pub open spec fn spec_sub_fields(self) -> Option<Seq<PropertyValue>> {
        match self {
            EntryValue::Single { .. } => None,
            EntryValue::MapData { map } => Some(map.fields@),
            EntryValue::LevelData { level } => Some(level.fields@),
        }
    }

    /// The closed, two-case "labeled sub-collection" projection: exactly
    /// the two legacy container shapes expose their children for direct
    /// traversal instead of being described as single values.  This is the
    /// whole special-case rule; it is not an open-ended type switch.
    pub fn as_sub_collection(&self) -> (r: Option<&Vec<PropertyValue>>)
        ensures
            r is Some <==> self.spec_sub_fields() is Some,
            r matches Some(v) ==> Some(v@) == self.spec_sub_fields(),
    {
        match self {
            EntryValue::Single { .. } => None,
            EntryValue::MapData { map } => Some(&map.fields),
            EntryValue::LevelData { level } => Some(&level.fields),
        }
    }
}

} // verus!
