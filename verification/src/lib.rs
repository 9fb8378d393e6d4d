//! A reflective property-graph engine for a game-save editor: a recursively
//! tagged value model for decoded objects, a name/object resolver over
//! append-only tables, an insertion-ordered keyed collection in three key
//! domains backed by `indexmap`, and the uniform introspection walk that
//! lets one generic editing surface display and mutate any value without
//! per-type branches.
//!
//! Values live in arenas and are addressed by stable indices and
//! identifiers, never by owning pointers, so several views can observe one
//! canonical value and cyclic object references stay safe: the traversal
//! carries a depth budget and is proved to terminate on every graph.

pub mod collection;
pub mod display;
pub mod imap;
pub mod laws;
pub mod legacy;
pub mod panel;
pub mod resolver;
pub mod value;
pub mod war_asset;
