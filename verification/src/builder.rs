//! Building the scope tree: from the declarations as the tokenizer hands them
//! over to the header of the model.
//!
//! Scopes and variables become entries, in the order of their declaration.
//! Comments and nodes of unknown kind are passed over. A header without a
//! date, a version or a timescale is refused.

use vstd::prelude::*;
use crate::error::TraceError;
use crate::raw::raw_item_views;
use crate::raw::RawHeader;
use crate::raw::RawHeaderView;
use crate::raw::RawIndex;
use crate::raw::RawItemView;
use crate::raw::RawScope;
use crate::raw::RawScopeItem;
use crate::raw::RawScopeView;
use crate::raw::RawVar;
use crate::raw::RawVarView;
use crate::scope::entry_views;
use crate::scope::EntryView;
use crate::scope::HeaderView;
use crate::scope::ScopeView;
use crate::scope::VarView;
use crate::scope::VcdHeader;
use crate::scope::VcdScope;
use crate::scope::VcdScopeItem;
use crate::scope::VcdVar;

verus! {

/// The bit range that a selector names: a single bit `b` is the range from
/// `b` to `b`, and no selector is no range.
pub open spec fn index_range_of(index: Option<RawIndex>) -> Option<(i32, i32)> {
    match index {
        Some(RawIndex::BitSelect(bit)) => Some((bit, bit)),
        Some(RawIndex::Range(begin, end)) => Some((begin, end)),
        None => None,
    }
}

/// The variable that a declaration stands for.
pub open spec fn built_var(raw: RawVarView) -> VarView {
    VarView {
        var_type: raw.var_type,
        size: raw.size,
        code: raw.code,
        reference: raw.reference,
        index_range: index_range_of(raw.index),
    }
}

/// The scope that a declaration stands for.
pub open spec fn built_scope(raw: RawScopeView) -> ScopeView
    decreases raw,
{
    ScopeView {
        scope_type: raw.scope_type,
        identifier: raw.identifier,
        items: built_entries(raw.items),
    }
}

/// The entry that a node stands for, if it stands for one.
pub open spec fn built_entry(raw: RawItemView) -> Option<EntryView>
    decreases raw,
{
    match raw {
        RawItemView::Scope(scope) => Some(EntryView::Scope(built_scope(scope))),
        RawItemView::Var(var) => Some(EntryView::Var(built_var(var))),
        RawItemView::Comment(_) => None,
        RawItemView::Other => None,
    }
}

/// The entries that a run of nodes stands for: the entry of each node that has
/// one, in the order of the nodes.
pub open spec fn built_entries(items: Seq<RawItemView>) -> Seq<EntryView>
    decreases items,
{
    if items.len() == 0 {
        Seq::empty()
    } else {
        match built_entry(items.last()) {
            Some(entry) => built_entries(items.drop_last()).push(entry),
            None => built_entries(items.drop_last()),
        }
    }
}

/// Whether the declarations carry a date, a version and a timescale.
pub open spec fn has_metadata(raw: RawHeaderView) -> bool {
    raw.date is Some && raw.version is Some && raw.timescale is Some
}

/// The header that the declarations stand for, if they carry their metadata.
pub open spec fn built_header(raw: RawHeaderView) -> Option<HeaderView> {
    if has_metadata(raw) {
        Some(
            HeaderView {
                date: raw.date->Some_0,
                version: raw.version->Some_0,
                timescale_value: raw.timescale->Some_0.0,
                timescale_unit: raw.timescale->Some_0.1,
                items: built_entries(raw.items),
            },
        )
    } else {
        None
    }
}

/// The positions of the nodes that stand for an entry, ascending.
pub open spec fn entry_positions(items: Seq<RawItemView>) -> Seq<int>
    decreases items.len(),
{
    if items.len() == 0 {
        Seq::empty()
    } else if built_entry(items.last()) is Some {
        entry_positions(items.drop_last()).push(items.len() - 1)
    } else {
        entry_positions(items.drop_last())
    }
}

/// The entries are built node by node: one more node at the end adds its
/// entry at the end, if it stands for one, and nothing if not.
pub proof fn lemma_one_more_node(items: Seq<RawItemView>, node: RawItemView)
    ensures
        built_entries(items.push(node)) == match built_entry(node) {
            Some(entry) => built_entries(items).push(entry),
            None => built_entries(items),
        },
{
    assert(items.push(node).drop_last() == items);
}

/// Declaration order is kept. The entries built from a run of nodes are as
/// many as the nodes that stand for an entry; the entry at place `k` comes
/// from the node at position `entry_positions(items)[k]`; these positions
/// ascend strictly, and no node that stands for an entry is left out.
pub proof fn lemma_declaration_order_kept(items: Seq<RawItemView>)
    ensures
        built_entries(items).len() == entry_positions(items).len(),
        forall|k: int|
            0 <= k < built_entries(items).len() ==> {
                &&& 0 <= (#[trigger] entry_positions(items)[k]) < items.len()
                &&& built_entry(items[entry_positions(items)[k]]) == Some(built_entries(items)[k])
            },
        forall|j: int, k: int|
            0 <= j < k < built_entries(items).len() ==> entry_positions(items)[j]
                < entry_positions(items)[k],
        forall|i: int|
            #![trigger items[i]]
            0 <= i < items.len() && built_entry(items[i]) is Some ==> entry_positions(
                items,
            ).contains(i),
    decreases items.len(),
{
    if items.len() > 0 {
        let front = items.drop_last();
        lemma_declaration_order_kept(front);
        let positions = entry_positions(items);
        assert forall|i: int|
            #![trigger items[i]]
            0 <= i < items.len() && built_entry(items[i]) is Some implies positions.contains(
            i,
        ) by {
            if i < front.len() {
                assert(front[i] == items[i]);
                assert(entry_positions(front).contains(i));
                let k = choose|k: int|
                    0 <= k < entry_positions(front).len() && entry_positions(front)[k] == i;
                assert(positions[k] == i);
            } else {
                assert(positions[positions.len() - 1] == i);
            }
        }
    }
}

/// No kind of scope or variable makes the building fail. Declarations with
/// their metadata always give a header, whatever their nodes are; every scope
/// gives an entry, and it keeps its kind, so that a scope of kind `Other`
/// gives a scope of kind `Other`.
pub proof fn lemma_every_kind_is_built(raw: RawHeaderView, scope: RawScopeView)
    requires
        has_metadata(raw),
    ensures
        built_header(raw) is Some,
        built_entry(RawItemView::Scope(scope)) == Some(EntryView::Scope(built_scope(scope))),
        built_scope(scope).scope_type == scope.scope_type,
{
}

/// The variable of a declaration. A selector of one bit `b` gives the range
/// `(b, b)`; a declaration without a selector gives no range.
pub fn get_vcd_var(input: &RawVar) -> (r: VcdVar)
    ensures
        r@ == built_var(input@),
        r@.index_range is None <==> input.index is None,
        input.index matches Some(RawIndex::BitSelect(bit)) ==> r@.index_range == Some((bit, bit)),
{
    let index_range = match input.index {
        None => None,
        Some(RawIndex::BitSelect(bit)) => Some((bit, bit)),
        Some(RawIndex::Range(begin, end)) => Some((begin, end)),
    };
    VcdVar::new(
        input.var_type,
        input.size,
        input.code.clone(),
        input.reference.clone(),
        index_range,
    )
}

/// The scope of a declaration, with the entries of the nodes declared in it.
pub fn get_vcd_scope(input: &RawScope) -> (r: VcdScope)
    ensures
        r@ == built_scope(input@),
    decreases input,
{
    let items = get_vcd_scope_items(&input.items);
    VcdScope::new(input.scope_type, input.identifier.clone(), items)
}

/// The entry of a node: a scope or a variable, and `None` for a comment or a
/// node of unknown kind.
pub fn get_vcd_scope_item(input: &RawScopeItem) -> (r: Option<VcdScopeItem>)
    ensures
        match built_entry(input@) {
            Some(entry) => r is Some && r->Some_0@ == entry,
            None => r is None,
        },
    decreases input,
{
    match input {
        RawScopeItem::Scope(scope) => Some(VcdScopeItem::Scope(get_vcd_scope(scope))),
        RawScopeItem::Var(var) => Some(VcdScopeItem::Var(get_vcd_var(var))),
        RawScopeItem::Comment(_) => None,
        RawScopeItem::Other => None,
    }
}

/// The entries of a run of nodes, in the order of the nodes.
pub fn get_vcd_scope_items(input: &Vec<RawScopeItem>) -> (r: Vec<VcdScopeItem>)
    ensures
        entry_views(r@) == built_entries(raw_item_views(input@)),
    decreases input,
{
    let ghost nodes = raw_item_views(input@);
    let mut result: Vec<VcdScopeItem> = Vec::new();
    let mut i: usize = 0;
    while i < input.len()
        invariant
            i <= input.len(),
            nodes == raw_item_views(input@),
            entry_views(result@) == built_entries(nodes.take(i as int)),
        decreases input.len() - i,
    {
        proof {
            assert(nodes.take(i + 1) == nodes.take(i as int).push(input@[i as int]@));
            lemma_one_more_node(nodes.take(i as int), input@[i as int]@);
        }
        match get_vcd_scope_item(&input[i]) {
            Some(entry) => {
                let ghost before = result@;
                result.push(entry);
                assert(entry_views(result@) == entry_views(before).push(entry@));
            },
            None => {},
        }
        i = i + 1;
    }
    proof {
        assert(nodes.take(i as int) == nodes);
    }
    result
}

/// The header of the declarations. It is refused as `MissingMetadata` exactly
/// when the date, the version or the timescale is absent.
pub fn get_vcd_header(input: RawHeader) -> (r: Result<VcdHeader, TraceError>)
    ensures
        match built_header(input@) {
            Some(header) => r is Ok && r->Ok_0@ == header,
            None => r is Err && r->Err_0 is MissingMetadata,
        },
{
    let items = get_vcd_scope_items(&input.items);
    match (input.date, input.version, input.timescale) {
        (Some(date), Some(version), Some(timescale)) => Ok(
            VcdHeader::new(date, version, timescale.0, timescale.1, items),
        ),
        _ => Err(TraceError::MissingMetadata),
    }
}

} // verus!
