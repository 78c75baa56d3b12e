//! The static part of the model: variables, scopes and the header that holds
//! them. Everything is built once and read through getters; sequences are read
//! by size and index.

use vstd::prelude::*;
use crate::error::IndexOutOfRange;
use crate::value::VcdScopeType;
use crate::value::VcdTimescaleUnit;
use crate::value::VcdVarType;

verus! {

/// A variable as a mathematical value.
pub struct VarView {
    pub var_type: VcdVarType,
    pub size: u32,
    pub code: Seq<char>,
    pub reference: Seq<char>,
    pub index_range: Option<(i32, i32)>,
}

/// A scope as a mathematical value: its kind, its name and its children in
/// the order of their declaration.
pub struct ScopeView {
    pub scope_type: VcdScopeType,
    pub identifier: Seq<char>,
    pub items: Seq<EntryView>,
}

/// A child of a scope as a mathematical value: a scope or a variable.
pub enum EntryView {
    Scope(ScopeView),
    Var(VarView),
}

/// A header as a mathematical value.
pub struct HeaderView {
    pub date: Seq<char>,
    pub version: Seq<char>,
    pub timescale_value: u32,
    pub timescale_unit: VcdTimescaleUnit,
    pub items: Seq<EntryView>,
}

/// One traced signal.
#[derive(Debug)]
pub struct VcdVar {
    var_type: VcdVarType,
    size: u32,
    code: String,
    reference: String,
    index_range: Option<(i32, i32)>,
}

/// A named group of variables and further scopes.
#[derive(Debug)]
pub struct VcdScope {
    scope_type: VcdScopeType,
    identifier: String,
    items: Vec<VcdScopeItem>,
}

/// One child of a scope: either a scope or a variable.
#[derive(Debug)]
pub enum VcdScopeItem {
    Scope(VcdScope),
    Var(VcdVar),
}

/// The root of the static model: the metadata of the trace and its top-level
/// entries.
#[derive(Debug)]
pub struct VcdHeader {
    date: String,
    version: String,
    timescale_value: u32,
    timescale_unit: VcdTimescaleUnit,
    items: Vec<VcdScopeItem>,
}

impl View for VcdVar {
    type V = VarView;

    closed spec fn view(&self) -> VarView {
        VarView {
            var_type: self.var_type,
            size: self.size,
            code: self.code@,
            reference: self.reference@,
            index_range: self.index_range,
        }
    }
}

impl View for VcdScope {
    type V = ScopeView;

    closed spec fn view(&self) -> ScopeView
        decreases self,
    {
        ScopeView {
            scope_type: self.scope_type,
            identifier: self.identifier@,
            items: entry_views(self.items@),
        }
    }
}

impl View for VcdScopeItem {
    type V = EntryView;

    open spec fn view(&self) -> EntryView
        decreases self,
    {
        match self {
            VcdScopeItem::Scope(s) => EntryView::Scope(s@),
            VcdScopeItem::Var(v) => EntryView::Var(v@),
        }
    }
}

/// The views of a run of entries, in order.
pub open spec fn entry_views(items: Seq<VcdScopeItem>) -> Seq<EntryView>
    decreases items,
{
    Seq::new(
        items.len(),
        |i: int|
            if 0 <= i < items.len() {
                items[i]@
            } else {
                arbitrary()
            },
    )
}

impl View for VcdHeader {
    type V = HeaderView;

    closed spec fn view(&self) -> HeaderView {
        HeaderView {
            date: self.date@,
            version: self.version@,
            timescale_value: self.timescale_value,
            timescale_unit: self.timescale_unit,
            items: entry_views(self.items@),
        }
    }
}

/// A copy of a run of entries.
fn clone_entries(items: &Vec<VcdScopeItem>) -> (r: Vec<VcdScopeItem>)
    ensures
        entry_views(r@) == entry_views(items@),
    decreases items,
{
    let mut copy: Vec<VcdScopeItem> = Vec::new();
    let mut i: usize = 0;
    while i < items.len()
        invariant
            i <= items.len(),
            copy@.len() == i,
            forall|k: int| 0 <= k < i ==> (#[trigger] copy@[k])@ == items@[k]@,
        decreases items.len() - i,
    {
        copy.push(items[i].clone());
        i = i + 1;
    }
    copy
}

/// The element of `items` at `index`, copied, if there is one.
fn entry_at(items: &Vec<VcdScopeItem>, index: usize) -> (r: Result<VcdScopeItem, IndexOutOfRange>)
    ensures
        index < items.len() ==> r is Ok && r->Ok_0@ == entry_views(items@)[index as int],
        index >= items.len() ==> r == Err::<VcdScopeItem, IndexOutOfRange>(
            IndexOutOfRange { index, len: items.len() },
        ),
{
    if index < items.len() {
        Ok(items[index].clone())
    } else {
        Err(IndexOutOfRange { index, len: items.len() })
    }
}

impl Clone for VcdVar {
    fn clone(&self) -> (r: Self)
        ensures
            r@ == self@,
    {
        VcdVar {
            var_type: self.var_type,
            size: self.size,
            code: self.code.clone(),
            reference: self.reference.clone(),
            index_range: self.index_range,
        }
    }
}

impl Clone for VcdScope {
    fn clone(&self) -> (r: Self)
        ensures
            r@ == self@,
        decreases self,
    {
        VcdScope {
            scope_type: self.scope_type,
            identifier: self.identifier.clone(),
            items: clone_entries(&self.items),
        }
    }
}

impl Clone for VcdScopeItem {
    fn clone(&self) -> (r: Self)
        ensures
            r@ == self@,
        decreases self,
    {
        match self {
            VcdScopeItem::Scope(s) => VcdScopeItem::Scope(s.clone()),
            VcdScopeItem::Var(v) => VcdScopeItem::Var(v.clone()),
        }
    }
}

impl Clone for VcdHeader {
    fn clone(&self) -> (r: Self)
        ensures
            r@ == self@,
    {
        VcdHeader {
            date: self.date.clone(),
            version: self.version.clone(),
            timescale_value: self.timescale_value,
            timescale_unit: self.timescale_unit,
            items: clone_entries(&self.items),
        }
    }
}

impl VcdVar {
    pub fn new(
        var_type: VcdVarType,
        size: u32,
        code: String,
        reference: String,
        index_range: Option<(i32, i32)>,
    ) -> (r: VcdVar)
        ensures
            r@ == (VarView { var_type, size, code: code@, reference: reference@, index_range }),
    {
        VcdVar { var_type, size, code, reference, index_range }
    }

    pub fn get_var_type(&self) -> (r: VcdVarType)
        ensures
            r == self@.var_type,
    {
        self.var_type
    }

    /// The width of the variable in bits.
    pub fn get_size(&self) -> (r: u32)
        ensures
            r == self@.size,
    {
        self.size
    }

    /// The identifier code by which value changes name this variable.
    pub fn get_var_code(&self) -> (r: String)
        ensures
            r@ == self@.code,
    {
        self.code.clone()
    }

    /// The name of the variable as declared.
    pub fn get_reference(&self) -> (r: String)
        ensures
            r@ == self@.reference,
    {
        self.reference.clone()
    }

    /// The bit range of the declaration, `None` where it has no selector.
    pub fn get_index_range(&self) -> (r: Option<(i32, i32)>)
        ensures
            r == self@.index_range,
    {
        self.index_range
    }

    /// The first bound of the bit range, `None` where the declaration has no
    /// selector.
    pub fn get_index_range_begin(&self) -> (r: Option<i32>)
        ensures
            r == match self@.index_range {
                Some(range) => Some(range.0),
                None => None,
            },
    {
        match self.index_range {
            Some(range) => Some(range.0),
            None => None,
        }
    }

    /// The second bound of the bit range, `None` where the declaration has no
    /// selector.
    pub fn get_index_range_end(&self) -> (r: Option<i32>)
        ensures
            r == match self@.index_range {
                Some(range) => Some(range.1),
                None => None,
            },
    {
        match self.index_range {
            Some(range) => Some(range.1),
            None => None,
        }
    }
}

impl VcdScope {
    pub fn new(scope_type: VcdScopeType, identifier: String, items: Vec<VcdScopeItem>) -> (r:
        VcdScope)
        ensures
            r@ == (ScopeView {
                scope_type,
                identifier: identifier@,
                items: entry_views(items@),
            }),
    {
        VcdScope { scope_type, identifier, items }
    }

    pub fn get_scope_type(&self) -> (r: VcdScopeType)
        ensures
            r == self@.scope_type,
    {
        self.scope_type
    }

    pub fn get_identifier(&self) -> (r: String)
        ensures
            r@ == self@.identifier,
    {
        self.identifier.clone()
    }

    /// The number of children.
    pub fn get_items_size(&self) -> (r: usize)
        ensures
            r == self@.items.len(),
    {
        self.items.len()
    }

    /// The child at position `i`, counted from 0 in declaration order.
    pub fn get_items_data(&self, i: usize) -> (r: Result<VcdScopeItem, IndexOutOfRange>)
        ensures
            i < self@.items.len() ==> r is Ok && r->Ok_0@ == self@.items[i as int],
            i >= self@.items.len() ==> r == Err::<VcdScopeItem, IndexOutOfRange>(
                IndexOutOfRange { index: i, len: self@.items.len() as usize },
            ),
    {
        entry_at(&self.items, i)
    }
}

impl VcdScopeItem {
    /// The scope, where this entry is one.
    pub fn get_scope(&self) -> (r: Option<VcdScope>)
        ensures
            match self@ {
                EntryView::Scope(s) => r is Some && r->Some_0@ == s,
                EntryView::Var(_) => r is None,
            },
    {
        match self {
            VcdScopeItem::Scope(s) => Some(s.clone()),
            VcdScopeItem::Var(_) => None,
        }
    }

    /// The variable, where this entry is one.
    pub fn get_var(&self) -> (r: Option<VcdVar>)
        ensures
            match self@ {
                EntryView::Var(v) => r is Some && r->Some_0@ == v,
                EntryView::Scope(_) => r is None,
            },
    {
        match self {
            VcdScopeItem::Var(v) => Some(v.clone()),
            VcdScopeItem::Scope(_) => None,
        }
    }
}

impl VcdHeader {
    pub fn new(
        date: String,
        version: String,
        timescale_value: u32,
        timescale_unit: VcdTimescaleUnit,
        items: Vec<VcdScopeItem>,
    ) -> (r: VcdHeader)
        ensures
            r@ == (HeaderView {
                date: date@,
                version: version@,
                timescale_value,
                timescale_unit,
                items: entry_views(items@),
            }),
    {
        VcdHeader { date, version, timescale_value, timescale_unit, items }
    }

    pub fn get_date(&self) -> (r: String)
        ensures
            r@ == self@.date,
    {
        self.date.clone()
    }

    pub fn get_version(&self) -> (r: String)
        ensures
            r@ == self@.version,
    {
        self.version.clone()
    }

    /// How many units one tick of simulated time lasts.
    pub fn get_timescale_value(&self) -> (r: u32)
        ensures
            r == self@.timescale_value,
    {
        self.timescale_value
    }

    pub fn get_timescale_unit(&self) -> (r: VcdTimescaleUnit)
        ensures
            r == self@.timescale_unit,
    {
        self.timescale_unit
    }

    /// The number of top-level entries.
    pub fn get_items_size(&self) -> (r: usize)
        ensures
            r == self@.items.len(),
    {
        self.items.len()
    }

    /// The top-level entry at position `i`, counted from 0 in declaration
    /// order.
    pub fn get_items_data(&self, i: usize) -> (r: Result<VcdScopeItem, IndexOutOfRange>)
        ensures
            i < self@.items.len() ==> r is Ok && r->Ok_0@ == self@.items[i as int],
            i >= self@.items.len() ==> r == Err::<VcdScopeItem, IndexOutOfRange>(
                IndexOutOfRange { index: i, len: self@.items.len() as usize },
            ),
    {
        entry_at(&self.items, i)
    }
}

} // verus!
