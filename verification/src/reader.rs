//! From the tokenizer's values to plain ones. Each function here copies what
//! a value of the `vcd` crate holds into the raw form that the rest of the
//! library works on, node by node and in order.

use vstd::prelude::*;
use crate::raw::raw_item_views;
use crate::raw::RawEvent;
use crate::raw::RawHeader;
use crate::raw::RawScope;
use crate::raw::RawScopeItem;
use crate::raw::RawVar;
use crate::source::command_content;
use crate::source::command_parts;
use crate::source::get_vcd_scope_type;
use crate::source::get_vcd_time_scale_unit;
use crate::source::get_vcd_value;
use crate::source::get_vcd_var_type;
use crate::source::header_content;
use crate::source::header_parts;
use crate::source::item_content;
use crate::source::item_contents;
use crate::source::item_parts;
use crate::source::logic_values_of;
use crate::source::scope_content;
use crate::source::scope_parts;
use crate::source::var_content;
use crate::source::var_parts;
use crate::source::CommandParts;
use crate::source::ItemParts;
use crate::value::VcdValue;

verus! {

/// The raw form of a variable declaration.
pub fn raw_var(var: &vcd::Var) -> (r: RawVar)
    ensures
        r@ == var_content(*var),
{
    let parts = var_parts(var);
    RawVar {
        var_type: get_vcd_var_type(parts.var_type),
        size: parts.size,
        code: parts.code,
        reference: parts.reference,
        index: parts.index,
    }
}

/// The raw form of a scope declaration, with all that is declared in it.
pub fn raw_scope(scope: &vcd::Scope) -> (r: RawScope)
    ensures
        r@ == scope_content(*scope),
    decreases scope_content(*scope),
{
    let parts = scope_parts(scope);
    proof {
        let whole = scope_content(*scope);
        assert(whole.items == item_contents(parts.items@));
        assert(decreases_to!(whole => whole.items));
    }
    let items = raw_items(parts.items);
    RawScope {
        scope_type: get_vcd_scope_type(parts.scope_type),
        identifier: parts.identifier,
        items,
    }
}

/// The raw form of a declaration node.
pub fn raw_item(item: &vcd::ScopeItem) -> (r: RawScopeItem)
    ensures
        r@ == item_content(*item),
    decreases item_content(*item),
{
    match item_parts(item) {
        ItemParts::Scope(scope) => {
            proof {
                let whole = item_content(*item);
                assert(whole->Scope_0 == scope_content(*scope));
                assert(decreases_to!(whole => whole->Scope_0));
            }
            RawScopeItem::Scope(raw_scope(scope))
        },
        ItemParts::Var(var) => RawScopeItem::Var(raw_var(var)),
        ItemParts::Comment(text) => RawScopeItem::Comment(text),
        ItemParts::Other => RawScopeItem::Other,
    }
}

/// The raw forms of a run of declaration nodes, in order.
pub fn raw_items(items: &Vec<vcd::ScopeItem>) -> (r: Vec<RawScopeItem>)
    ensures
        raw_item_views(r@) == item_contents(items@),
    decreases item_contents(items@),
{
    let mut result: Vec<RawScopeItem> = Vec::new();
    let mut i: usize = 0;
    while i < items.len()
        invariant
            i <= items.len(),
            result@.len() == i,
            forall|k: int| 0 <= k < i ==> (#[trigger] result@[k])@ == item_content(items@[k]),
        decreases items.len() - i,
    {
        proof {
            assert(item_contents(items@)[i as int] == item_content(items@[i as int]));
        }
        result.push(raw_item(&items[i]));
        i = i + 1;
    }
    proof {
        assert(raw_item_views(result@) =~= item_contents(items@));
    }
    result
}

/// The raw form of the declarations of a trace.
pub fn raw_header(header: &vcd::Header) -> (r: RawHeader)
    ensures
        r@ == header_content(*header),
{
    let parts = header_parts(header);
    let timescale = match parts.timescale {
        Some(scale) => Some((scale.0, get_vcd_time_scale_unit(scale.1))),
        None => None,
    };
    RawHeader {
        date: parts.date,
        version: parts.version,
        timescale,
        items: raw_items(parts.items),
    }
}

/// The logic states of the bits of a vector, in order.
pub fn get_vcd_vector(input: &Vec<vcd::Value>) -> (r: Vec<VcdValue>)
    ensures
        r@ == logic_values_of(input@),
{
    let mut result: Vec<VcdValue> = Vec::new();
    let mut i: usize = 0;
    while i < input.len()
        invariant
            i <= input.len(),
            result@ == logic_values_of(input@.take(i as int)),
        decreases input.len() - i,
    {
        result.push(get_vcd_value(input[i]));
        proof {
            assert(input@.take(i + 1) == input@.take(i as int).push(input@[i as int]));
        }
        i = i + 1;
    }
    proof {
        assert(input@.take(i as int) == input@);
    }
    result
}

/// The raw form of a command.
pub fn raw_event(command: &vcd::Command) -> (r: RawEvent)
    ensures
        r@ == command_content(*command),
{
    match command_parts(command) {
        CommandParts::Timestamp(time) => RawEvent::Timestamp(time),
        CommandParts::Scalar(code, value) => RawEvent::ChangeScalar(code, get_vcd_value(value)),
        CommandParts::Vector(code, bits) => RawEvent::ChangeVector(code, get_vcd_vector(&bits)),
        CommandParts::Real(code, bits) => RawEvent::ChangeReal(code, bits),
        CommandParts::Str(code, text) => RawEvent::ChangeString(code, text),
        CommandParts::Other => RawEvent::Other,
    }
}

} // verus!
