//! The declarations and events of a trace as a tokenizer hands them over,
//! before the model is built from them. Every type here is plain data with
//! public fields, so a caller can write any stream by hand.

use vstd::prelude::*;
use crate::value::VcdScopeType;
use crate::value::VcdTimescaleUnit;
use crate::value::VcdValue;
use crate::value::VcdVarType;

verus! {

/// The bit selector that a variable declaration may carry.
#[derive(Clone, Copy, Debug, PartialEq, Eq)]
pub enum RawIndex {
    /// A single bit, as in `[3]`.
    BitSelect(i32),
    /// A slice, as in `[7:0]`.
    Range(i32, i32),
}

/// A variable declaration.
#[derive(Debug, PartialEq, Eq)]
pub struct RawVar {
    pub var_type: VcdVarType,
    pub size: u32,
    pub code: String,
    pub reference: String,
    pub index: Option<RawIndex>,
}

/// A scope declaration with the nodes declared inside it, in order.
#[derive(Debug, PartialEq, Eq)]
pub struct RawScope {
    pub scope_type: VcdScopeType,
    pub identifier: String,
    pub items: Vec<RawScopeItem>,
}

/// One node of the declarations.
#[derive(Debug, PartialEq, Eq)]
pub enum RawScopeItem {
    Scope(RawScope),
    Var(RawVar),
    Comment(String),
    /// A node of a kind that the tokenizer does not name.
    Other,
}

/// All the declarations of one trace.
#[derive(Debug, PartialEq, Eq)]
pub struct RawHeader {
    pub date: Option<String>,
    pub version: Option<String>,
    pub timescale: Option<(u32, VcdTimescaleUnit)>,
    pub items: Vec<RawScopeItem>,
}

/// One event of the stream that follows the declarations. A change names its
/// variable by identifier code. A real value is held as the 64 bits of its
/// IEEE 754 encoding.
#[derive(Debug, PartialEq, Eq)]
pub enum RawEvent {
    Timestamp(u64),
    ChangeScalar(String, VcdValue),
    ChangeVector(String, Vec<VcdValue>),
    ChangeReal(String, u64),
    ChangeString(String, String),
    /// Any other command; it changes nothing.
    Other,
}

/// A variable declaration as a mathematical value.
pub struct RawVarView {
    pub var_type: VcdVarType,
    pub size: u32,
    pub code: Seq<char>,
    pub reference: Seq<char>,
    pub index: Option<RawIndex>,
}

/// A scope declaration as a mathematical value.
pub struct RawScopeView {
    pub scope_type: VcdScopeType,
    pub identifier: Seq<char>,
    pub items: Seq<RawItemView>,
}

/// A declaration node as a mathematical value.
pub enum RawItemView {
    Scope(RawScopeView),
    Var(RawVarView),
    Comment(Seq<char>),
    Other,
}

/// The declarations of a trace as a mathematical value.
pub struct RawHeaderView {
    pub date: Option<Seq<char>>,
    pub version: Option<Seq<char>>,
    pub timescale: Option<(u32, VcdTimescaleUnit)>,
    pub items: Seq<RawItemView>,
}

/// An event as a mathematical value.
pub enum EventView {
    Timestamp(u64),
    Scalar(Seq<char>, VcdValue),
    Vector(Seq<char>, Seq<VcdValue>),
    Real(Seq<char>, u64),
    Str(Seq<char>, Seq<char>),
    Other,
}

impl EventView {
    /// Whether the event is a value change, of any of the four domains.
    pub open spec fn is_change(self) -> bool {
        self is Scalar || self is Vector || self is Real || self is Str
    }
}

/// The text of an optional string.
pub open spec fn text_of(s: Option<String>) -> Option<Seq<char>> {
    match s {
        Some(t) => Some(t@),
        None => None,
    }
}

impl View for RawVar {
    type V = RawVarView;

    open spec fn view(&self) -> RawVarView {
        RawVarView {
            var_type: self.var_type,
            size: self.size,
            code: self.code@,
            reference: self.reference@,
            index: self.index,
        }
    }
}

impl View for RawScope {
    type V = RawScopeView;

    open spec fn view(&self) -> RawScopeView
        decreases self,
    {
        RawScopeView {
            scope_type: self.scope_type,
            identifier: self.identifier@,
            items: raw_item_views(self.items@),
        }
    }
}

impl View for RawScopeItem {
    type V = RawItemView;

    open spec fn view(&self) -> RawItemView
        decreases self,
    {
        match self {
            RawScopeItem::Scope(s) => RawItemView::Scope(s@),
            RawScopeItem::Var(v) => RawItemView::Var(v@),
            RawScopeItem::Comment(text) => RawItemView::Comment(text@),
            RawScopeItem::Other => RawItemView::Other,
        }
    }
}

/// The views of a run of declaration nodes, in order.
pub open spec fn raw_item_views(items: Seq<RawScopeItem>) -> Seq<RawItemView>
    decreases items,
{
    Seq::new(
        items.len(),
        |i: int|
            if 0 <= i < items.len() {
                items[i]@
            } else {
                arbitrary()
            },
    )
}

impl View for RawHeader {
    type V = RawHeaderView;

    open spec fn view(&self) -> RawHeaderView {
        RawHeaderView {
            date: text_of(self.date),
            version: text_of(self.version),
            timescale: self.timescale,
            items: raw_item_views(self.items@),
        }
    }
}

impl View for RawEvent {
    type V = EventView;

    open spec fn view(&self) -> EventView {
        match self {
            RawEvent::Timestamp(t) => EventView::Timestamp(*t),
            RawEvent::ChangeScalar(code, value) => EventView::Scalar(code@, *value),
            RawEvent::ChangeVector(code, bits) => EventView::Vector(code@, bits@),
            RawEvent::ChangeReal(code, bits) => EventView::Real(code@, *bits),
            RawEvent::ChangeString(code, text) => EventView::Str(code@, text@),
            RawEvent::Other => EventView::Other,
        }
    }
}

/// The views of a run of events, in order.
pub open spec fn event_views(events: Seq<RawEvent>) -> Seq<EventView> {
    events.map_values(|e: RawEvent| e@)
}

} // verus!
