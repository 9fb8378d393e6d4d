//! The editing panel over an ordered keyed collection: its open/closed
//! state, the "most recently added" marker, and the dispatch of the four
//! edit messages the generic surface can issue.

use vstd::prelude::*;
use crate::collection::{IndexMapKeyType, EntryKey, spec_add_default, spec_remove_at,
    spec_rekey_at, key_of_payload, SpecKey};
use crate::value::{CallbackType, PropertyValue};
use crate::legacy::EntryValue;
use crate::resolver::{Resolver, ResolveError};
use crate::display::{DisplayNode, SpecNode, node_view, nodes_view, res_view, vec_res_view,
    spec_describe_fields, spec_describe_property, lemma_nodes_view_push, lemma_nodes_view_concat,
    i32_decimal, i32_to_decimal};
use crate::war_asset::war_asset_name;

verus! {

/// A message from the editing surface to a collection panel.
pub enum Msg {
    /// Open or close the panel.
    Toggle,
    /// Append a sentinel-keyed entry whose value is a freshly allocated
    /// default node, given by its arena handle.
    Add { fresh: u64 },
    /// Remove the entry at a position.
    Remove { idx: usize },
    /// Replace the key of the entry at a position.
    EditKey { idx: usize, new_key: CallbackType },
}

/// The state of one panel: whether it is open, and which position was most
/// recently added, so the surface can auto-expand exactly that entry.
pub struct RawUiIndexMap {
    pub opened: bool,
    pub new_item_idx: usize,
}

impl RawUiIndexMap {
    /// A closed panel with a cleared marker.
    pub fn create() -> (r: Self)
        ensures
            r.opened == false,
            r.new_item_idx == 0,
    {
        RawUiIndexMap { opened: false, new_item_idx: 0 }
    }

    /// Dispatch one message against the panel and its collection.  The
    /// result tells the orchestrator whether to schedule a re-render.
    ///
    /// On every open transition the recently-added marker is reset to the
    /// collection's current length, an out-of-range sentinel, so a stale
    /// marker never re-expands an unrelated entry.  A key edit whose
    /// payload tag does not match the collection's key domain is dropped
    /// with no state change and no re-render.
    pub fn update(&mut self, index_map: &mut IndexMapKeyType, msg: Msg) -> (changed: bool)
        requires
            old(index_map).wf(),
        ensures
            final (index_map).wf(),
            final (index_map).domain() == old(index_map).domain(),
            msg == Msg::Toggle ==> final (self).opened == !old(self).opened && final (index_map)@
                == old(index_map)@ && changed && (final (self).opened ==> final (self).new_item_idx
                == old(index_map)@.len()) && (!final (self).opened ==> final (self).new_item_idx
                == old(self).new_item_idx),
            msg matches Msg::Add { fresh } ==> final (index_map)@ == spec_add_default(
                    old(index_map)@,
                    old(index_map).sentinel(),
                    fresh,
                ).0 && final (self).new_item_idx as int == spec_add_default(
                    old(index_map)@,
                    old(index_map).sentinel(),
                    fresh,
                ).1 && final (self).opened == old(self).opened && changed,
            msg matches Msg::Remove { idx } ==> final (index_map)@ == spec_remove_at(
                    old(index_map)@,
                    idx as int,
                ) && *final (self) == *old(self) && changed,
            msg matches Msg::EditKey { idx, new_key } ==> *final (self) == *old(self) && (
            key_of_payload(old(index_map).domain(), new_key) is None ==> final (index_map)@ == old(
                index_map,
            )@ && !changed) && (key_of_payload(old(index_map).domain(), new_key) matches Some(k)
                ==> final (index_map)@ == spec_rekey_at(old(index_map)@, idx as int, k).0
                && changed),
    {
        match msg {
            Msg::Toggle => {
                self.opened = !self.opened;
                if self.opened {
                    // prevent the last added entry from re-opening
                    self.new_item_idx = index_map.len();
                }
                true
            },
            Msg::Add { fresh } => {
                self.new_item_idx = index_map.add_default(fresh);
                true
            },
            Msg::Remove { idx } => {
                index_map.remove_at(idx);
                true
            },
            Msg::EditKey { idx, new_key } => {
                let matched: bool = match (&*index_map, &new_key) {
                    (IndexMapKeyType::I32 { .. }, CallbackType::Int { .. }) => true,
                    (IndexMapKeyType::WarAsset { .. }, CallbackType::Int { .. }) => true,
                    (IndexMapKeyType::Str { .. }, CallbackType::Str { .. }) => true,
                    _ => false,
                };
                index_map.rekey_at(idx, new_key);
                matched
            },
        }
    }
}

/// The label of one collection row, by key domain: the key's decimal text
/// for a bare integer, the asset's display name followed by its id in
/// parentheses for an asset key, and the key text (or an empty-text
/// marker) for a string key.
pub open spec fn spec_entry_label(k: SpecKey) -> Seq<char> {
    match k {
        SpecKey::I32(v) => i32_decimal(v),
        SpecKey::Asset(id) => war_asset_name(id) + " ("@ + i32_decimal(id) + ")"@,
        SpecKey::Str(s) => if s.len() == 0 {
            "<empty>"@
        } else {
            s
        },
    }
}

/// The key's own edit affordance, by key domain.
pub open spec fn spec_key_editor(k: SpecKey) -> SpecNode {
    match k {
        SpecKey::I32(v) => SpecNode::IntEditor { label: "Id"@, value: v },
        SpecKey::Asset(v) => SpecNode::IntEditor { label: war_asset_name(v), value: v },
        SpecKey::Str(s) => SpecNode::TextEditor { label: "Key"@, text: s },
    }
}

/// A row whose value is a container: the key's editor followed by the
/// container's own children.
pub open spec fn spec_container_row(
    g: Resolver,
    label: Seq<char>,
    key_node: SpecNode,
    fields: Seq<PropertyValue>,
    depth: u32,
) -> Result<SpecNode, ResolveError> {
    match spec_describe_fields(g, fields, fields.len() as int, depth) {
        Ok(children) => Ok(SpecNode::Tree { label, children: seq![key_node] + children }),
        Err(e) => Err(e),
    }
}

/// One row of an open panel: the handle is resolved in the arena; the two
/// legacy container shapes contribute their children directly, any other
/// value one described node after the key's editor.
pub open spec fn spec_entry_node(
    g: Resolver,
    arena: Seq<EntryValue>,
    k: SpecKey,
    handle: u64,
    depth: u32,
) -> Result<SpecNode, ResolveError> {
    if handle as int >= arena.len() {
        Err(ResolveError::UnknownIdentifier)
    } else {
        match arena[handle as int] {
            EntryValue::Single { value } => match spec_describe_property(g, value, depth) {
                Ok(n) => Ok(
                    SpecNode::Tree {
                        label: spec_entry_label(k),
                        children: seq![spec_key_editor(k), n],
                    },
                ),
                Err(e) => Err(e),
            },
            EntryValue::MapData { map } => spec_container_row(
                g,
                spec_entry_label(k),
                spec_key_editor(k),
                map.fields@,
                depth,
            ),
            EntryValue::LevelData { level } => spec_container_row(
                g,
                spec_entry_label(k),
                spec_key_editor(k),
                level.fields@,
                depth,
            ),
        }
    }
}

/// The rows of the first `i` entries, in order.
pub open spec fn spec_rows(
    g: Resolver,
    entries: Seq<(SpecKey, u64)>,
    arena: Seq<EntryValue>,
    i: int,
    depth: u32,
) -> Result<Seq<SpecNode>, ResolveError>
    decreases i,
{
    if i <= 0 || i > entries.len() {
        Ok(Seq::empty())
    } else {
        match spec_rows(g, entries, arena, i - 1, depth) {
            Err(e) => Err(e),
            Ok(s) => match spec_entry_node(g, arena, entries[i - 1].0, entries[i - 1].1, depth) {
                Err(e) => Err(e),
                Ok(n) => Ok(s.push(n)),
            },
        }
    }
}

/// What an open panel shows: one row per entry plus the trailing "add"
/// affordance; a closed panel shows nothing.
pub open spec fn spec_children(
    opened: bool,
    g: Resolver,
    entries: Seq<(SpecKey, u64)>,
    arena: Seq<EntryValue>,
    depth: u32,
) -> Result<Seq<SpecNode>, ResolveError> {
    if !opened {
        Ok(Seq::empty())
    } else {
        match spec_rows(g, entries, arena, entries.len() as int, depth) {
            Ok(s) => Ok(s.push(SpecNode::AddEntry)),
            Err(e) => Err(e),
        }
    }
}

/// An error at entry `i` makes the whole row walk an error.
proof fn lemma_rows_error(
    g: Resolver,
    entries: Seq<(SpecKey, u64)>,
    arena: Seq<EntryValue>,
    i: int,
    j: int,
    depth: u32,
)
    requires
        0 <= i < j <= entries.len(),
        spec_rows(g, entries, arena, i + 1, depth) is Err,
    ensures
        spec_rows(g, entries, arena, j, depth) == spec_rows(g, entries, arena, i + 1, depth),
    decreases j,
{
    if j > i + 1 {
        lemma_rows_error(g, entries, arena, i, j - 1, depth);
    }
}

/// The key's edit affordance, in executable form.
fn key_editor(key: &EntryKey) -> (res: DisplayNode)
    ensures
        res@ == spec_key_editor(key@),
{
    match key {
        EntryKey::I32 { value } => DisplayNode::IntEditor { label: "Id".to_owned(), value: *value },
        EntryKey::Asset { asset } => DisplayNode::IntEditor {
            label: asset.as_str().to_owned(),
            value: asset.0,
        },
        EntryKey::Str { string } => DisplayNode::TextEditor {
            label: "Key".to_owned(),
            text: string.clone(),
        },
    }
}

/// The row label, in executable form.
fn entry_label(key: &EntryKey) -> (res: String)
    ensures
        res@ == spec_entry_label(key@),
{
    match key {
        EntryKey::I32 { value } => i32_to_decimal(*value),
        EntryKey::Asset { asset } => asset.as_str().to_owned().concat(" (").concat(
            i32_to_decimal(asset.0).as_str(),
        ).concat(")"),
        EntryKey::Str { string } => {
            let empty = String::new();
            if *string == empty {
                "<empty>".to_owned()
            } else {
                proof {
                    if string@.len() == 0 {
                        assert(string@ =~= Seq::<char>::empty());
                    }
                }
                string.clone()
            }
        },
    }
}

/// A container-valued row, in executable form.
fn container_row(
    resolver: &Resolver,
    label: String,
    key_node: DisplayNode,
    fields: &Vec<PropertyValue>,
    depth: u32,
) -> (res: Result<DisplayNode, ResolveError>)
    ensures
        res_view(res) == spec_container_row(*resolver, label@, key_node@, fields@, depth),
{
    match resolver.describe_fields(fields, depth) {
        Ok(tail) => {
            let mut children: Vec<DisplayNode> = Vec::new();
            proof {
                lemma_nodes_view_push(children@, key_node);
            }
            children.push(key_node);
            let mut tail = tail;
            proof {
                lemma_nodes_view_concat(children@, tail@);
                assert(nodes_view(children@) =~= seq![node_view(children@[0])]);
            }
            children.append(&mut tail);
            Ok(DisplayNode::Tree { label, children })
        },
        Err(e) => Err(e),
    }
}

/// One row of an open panel, in executable form.
fn entry_node(
    resolver: &Resolver,
    arena: &Vec<EntryValue>,
    key: &EntryKey,
    handle: u64,
    depth: u32,
) -> (res: Result<DisplayNode, ResolveError>)
    ensures
        res_view(res) == spec_entry_node(*resolver, arena@, key@, handle, depth),
{
    if handle >= arena.len() as u64 {
        return Err(ResolveError::UnknownIdentifier);
    }
    let index = handle as usize;
    proof {
        assert(index as int == handle as int);
    }
    let key_node = key_editor(key);
    let row_label = entry_label(key);
    match &arena[index] {
        EntryValue::Single { value } => {
            match resolver.describe_property(value, depth) {
                Ok(n) => {
                    let mut children: Vec<DisplayNode> = Vec::new();
                    proof {
                        lemma_nodes_view_push(children@, key_node);
                    }
                    children.push(key_node);
                    proof {
                        lemma_nodes_view_push(children@, n);
                    }
                    children.push(n);
                    proof {
                        assert(nodes_view(children@) =~= seq![
                            spec_key_editor(key@),
                            node_view(n),
                        ]);
                    }
                    Ok(DisplayNode::Tree { label: row_label, children })
                },
                Err(e) => Err(e),
            }
        },
        EntryValue::MapData { map } => container_row(resolver, row_label, key_node, &map.fields, depth),
        EntryValue::LevelData { level } => container_row(
            resolver,
            row_label,
            key_node,
            &level.fields,
            depth,
        ),
    }
}

impl RawUiIndexMap {
    /// The display nodes of this panel over a collection: nothing when the
    /// panel is closed; when open, one row per (key, value) pair — the
    /// key's edit affordance and then the value, found in the arena by its
    /// handle — and a trailing "add" affordance.  A handle outside the
    /// arena is a corruption signal, as an unresolvable identifier is.
    pub fn children(
        &self,
        index_map: &IndexMapKeyType,
        arena: &Vec<EntryValue>,
        resolver: &Resolver,
        depth: u32,
    ) -> (res: Result<Vec<DisplayNode>, ResolveError>)
        ensures
            vec_res_view(res) == spec_children(self.opened, *resolver, index_map@, arena@, depth),
    {
        if !self.opened {
            let v: Vec<DisplayNode> = Vec::new();
            proof {
                assert(nodes_view(v@) =~= Seq::<SpecNode>::empty());
            }
            return Ok(v);
        }
        let entries = index_map.entries();
        let mut v: Vec<DisplayNode> = Vec::new();
        let mut idx: usize = 0;
        while idx < entries.len()
            invariant
                self.opened,
                idx <= entries@.len(),
                entries@.len() == index_map@.len(),
                forall|j: int|
                    0 <= j < entries@.len() ==> (#[trigger] entries@[j]).0@ == index_map@[j].0
                        && entries@[j].1 == index_map@[j].1,
                Ok::<Seq<SpecNode>, ResolveError>(nodes_view(v@)) == spec_rows(
                    *resolver,
                    index_map@,
                    arena@,
                    idx as int,
                    depth,
                ),
            decreases entries@.len() - idx,
        {
            let e = &entries[idx];
            match entry_node(resolver, arena, &e.0, e.1, depth) {
                Ok(n) => {
                    proof {
                        lemma_nodes_view_push(v@, n);
                    }
                    v.push(n);
                },
                Err(err) => {
                    proof {
                        assert(e.0@ == index_map@[idx as int].0);
                        assert(e.1 == index_map@[idx as int].1);
                        assert(spec_entry_node(
                            *resolver,
                            arena@,
                            index_map@[idx as int].0,
                            index_map@[idx as int].1,
                            depth,
                        ) == Err::<SpecNode, ResolveError>(err));
                        assert(spec_rows(*resolver, index_map@, arena@, idx as int + 1, depth)
                            == Err::<Seq<SpecNode>, ResolveError>(err));
                        if idx as int + 1 < index_map@.len() {
                            lemma_rows_error(
                                *resolver,
                                index_map@,
                                arena@,
                                idx as int,
                                index_map@.len() as int,
                                depth,
                            );
                        }
                        assert(spec_rows(
                            *resolver,
                            index_map@,
                            arena@,
                            index_map@.len() as int,
                            depth,
                        ) == Err::<Seq<SpecNode>, ResolveError>(err));
                    }
                    return Err(err);
                },
            }
            idx = idx + 1;
        }
        let add = DisplayNode::AddEntry;
        proof {
            lemma_nodes_view_push(v@, add);
        }
        v.push(add);
        proof {
            assert(Ok::<Seq<SpecNode>, ResolveError>(nodes_view(v@)) == spec_children(
                self.opened,
                *resolver,
                index_map@,
                arena@,
                depth,
            ));
        }
        Ok(v)
    }
}

} // verus!
