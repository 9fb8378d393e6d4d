//! The name/object resolver: pure lookups that turn small integer
//! identifiers into interned names, object records and class records.
//!
//! The tables are built once when a graph is loaded and are append-only for
//! the life of the session.  By convention a positive identifier indexes the
//! object table (one-based), a negative identifier indexes the class table by
//! its absolute value (one-based), and zero is the "null, default class"
//! sentinel.  A lookup miss signals graph corruption and is reported as
//! `UnknownIdentifier`; it is never a soft failure.

use vstd::prelude::*;
use crate::value::PropertyValue;

verus! {

/// The one fatal error of the core: an identifier that does not resolve
/// within the loaded graph.
#[derive(Clone, Copy, PartialEq, Eq, Structural, Debug)]
pub enum ResolveError {
    UnknownIdentifier,
}

/// One entry of the object table: the object's own name, its class, a
/// back-reference to its declaring context, and its field list.
pub struct ObjectRecord {
    /// Name-table identifier of the object's name.
    pub object_name_id: i32,
    /// Identifier of the object's class (negative or zero by convention).
    pub class_id: i32,
    /// Identifier of the declaring context (an object identifier, or zero).
    pub outer_id: i32,
    /// The object's fields, in storage order.
    pub fields: Vec<PropertyValue>,
}

/// One entry of the class table.
pub struct ClassRecord {
    /// Name-table identifier of the class's name.
    pub class_name_id: i32,
}

/// The resolver's append-only tables, owned in one place; every view works
/// through identifiers resolved against these tables on each access.
pub struct Resolver {
    pub names: Vec<String>,
    pub objects: Vec<ObjectRecord>,
    pub classes: Vec<ClassRecord>,
}

impl Resolver {
    /// Whether `id` resolves in the name table.
    pub open spec fn name_ok(self, id: i32) -> bool {
        0 <= id < self.names@.len()
    }

    /// The interned text of a resolvable name identifier.
    pub open spec fn spec_name(self, id: i32) -> Seq<char> {
        self.names@[id as int]@
    }

    /// Whether `id` resolves in the object table (positive, one-based).
    pub open spec fn object_ok(self, id: i32) -> bool {
        1 <= id <= self.objects@.len()
    }

    /// Whether `id` resolves in the class table (negative, one-based by
    /// absolute value).
    pub open spec fn class_ok(self, id: i32) -> bool {
        id < 0 && -(id as int) <= self.classes@.len()
    }

    /// Look an identifier up in the name table.
    pub fn resolve_name(&self, id: i32) -> (r: Result<&String, ResolveError>)
        ensures
            r is Ok <==> self.name_ok(id),
            r matches Ok(name) ==> name@ == self.spec_name(id),
            r is Err ==> r == Err::<&String, ResolveError>(ResolveError::UnknownIdentifier),
    {
        if id >= 0 && (id as usize) < self.names.len() {
            Ok(&self.names[id as usize])
        } else {
            Err(ResolveError::UnknownIdentifier)
        }
    }

    /// Dereference a positive identifier into the object table.
    pub fn resolve_object(&self, id: i32) -> (r: Result<&ObjectRecord, ResolveError>)
        ensures
            r is Ok <==> self.object_ok(id),
            r matches Ok(rec) ==> *rec == self.objects@[id - 1],
            r is Err ==> r == Err::<&ObjectRecord, ResolveError>(ResolveError::UnknownIdentifier),
    {
        if id >= 1 && (id as usize) <= self.objects.len() {
            Ok(&self.objects[(id as usize) - 1])
        } else {
            Err(ResolveError::UnknownIdentifier)
        }
    }

    /// Dereference a negative identifier into the class table.  Zero is the
    /// null-class sentinel and does not resolve here: callers render it as a
    /// literal leaf instead.
    pub fn resolve_class(&self, id: i32) -> (r: Result<&ClassRecord, ResolveError>)
        ensures
            r is Ok <==> self.class_ok(id),
            r matches Ok(rec) ==> *rec == self.classes@[-(id as int) - 1],
            r is Err ==> r == Err::<&ClassRecord, ResolveError>(ResolveError::UnknownIdentifier),
    {
        if id < 0 {
            // -id computed in the wider range to survive i32::MIN
            let abs_wide: i64 = -(id as i64);
            let abs: usize = abs_wide as usize;
            assert(abs == -(id as int));
            if abs <= self.classes.len() {
                return Ok(&self.classes[abs - 1]);
            }
            Err(ResolveError::UnknownIdentifier)
        } else {
            Err(ResolveError::UnknownIdentifier)
        }
    }
}

} // verus!
