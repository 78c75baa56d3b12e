//! The tokenizer. This is the one place where the `vcd` crate is called, and
//! every item that Verus takes on trust stands here.
//!
//! The values of the `vcd` crate are opaque to the verifier. Each kind of
//! value that the library reads has a spec function that names what it
//! holds, and a function that takes one such value apart and says, over
//! those names, how the parts make up the whole. The conversions built on
//! them are verified.

use vstd::prelude::*;
use vcd::VarType;
use crate::raw::text_of;
use crate::raw::EventView;
use crate::raw::RawHeaderView;
use crate::raw::RawIndex;
use crate::raw::RawItemView;
use crate::raw::RawScopeView;
use crate::raw::RawVarView;
use crate::value::VcdScopeType;
use crate::value::VcdTimescaleUnit;
use crate::value::VcdValue;
use crate::value::VcdVarType;

verus! {

// The types of the `vcd` crate and of `std::io` that pass through the
// library. The verifier knows of each that it exists, and nothing of what a
// value of it holds.

#[verifier::external_type_specification]
#[verifier::external_body]
#[verifier::reject_recursive_types(R)]
pub struct ExParser<R>(vcd::Parser<R>);

#[verifier::external_type_specification]
#[verifier::external_body]
pub struct ExHeader(vcd::Header);

#[verifier::external_type_specification]
#[verifier::external_body]
pub struct ExScopeItem(vcd::ScopeItem);

#[verifier::external_type_specification]
#[verifier::external_body]
pub struct ExScope(vcd::Scope);

#[verifier::external_type_specification]
#[verifier::external_body]
pub struct ExVar(vcd::Var);

#[verifier::external_type_specification]
#[verifier::external_body]
pub struct ExCommand(vcd::Command);

#[verifier::external_type_specification]
#[verifier::external_body]
pub struct ExValue(vcd::Value);

#[verifier::external_type_specification]
#[verifier::external_body]
pub struct ExScopeType(vcd::ScopeType);

#[verifier::external_type_specification]
#[verifier::external_body]
pub struct ExVarType(vcd::VarType);

#[verifier::external_type_specification]
#[verifier::external_body]
pub struct ExTimescaleUnit(vcd::TimescaleUnit);

#[verifier::external_type_specification]
#[verifier::external_body]
pub struct ExIoError(std::io::Error);

/// What `vcd::Parser::parse_header` returns on a parser made over the bytes
/// of `text`.
pub uninterp spec fn tokenized_header(text: Seq<char>) -> Result<vcd::Header, std::io::Error>;

/// What such a parser yields from then on, call by call of its `next`, up to
/// the end of the text.
pub uninterp spec fn tokenized_body(text: Seq<char>) -> Seq<Result<vcd::Command, std::io::Error>>;

/// What a parser over a byte slice has yet to yield.
pub uninterp spec fn pending(reader: vcd::Parser<&[u8]>) -> Seq<Result<vcd::Command, std::io::Error>>;

/// What a `vcd::Header` holds.
pub uninterp spec fn header_content(header: vcd::Header) -> RawHeaderView;

/// What a `vcd::ScopeItem` holds.
pub uninterp spec fn item_content(item: vcd::ScopeItem) -> RawItemView;

/// What a `vcd::Scope` holds.
pub uninterp spec fn scope_content(scope: vcd::Scope) -> RawScopeView;

/// What a `vcd::Var` holds.
pub uninterp spec fn var_content(var: vcd::Var) -> RawVarView;

/// What a `vcd::Command` holds.
pub uninterp spec fn command_content(command: vcd::Command) -> EventView;

/// The logic state that a `vcd::Value` stands for.
pub uninterp spec fn logic_value_of(value: vcd::Value) -> VcdValue;

/// The scope kind that a `vcd::ScopeType` stands for.
pub uninterp spec fn scope_type_of(kind: vcd::ScopeType) -> VcdScopeType;

/// The variable kind that a `vcd::VarType` stands for.
pub uninterp spec fn var_type_of(kind: vcd::VarType) -> VcdVarType;

/// The time unit that a `vcd::TimescaleUnit` stands for.
pub uninterp spec fn timescale_unit_of(unit: vcd::TimescaleUnit) -> VcdTimescaleUnit;

/// What a run of `vcd::ScopeItem` holds, item by item.
pub open spec fn item_contents(items: Seq<vcd::ScopeItem>) -> Seq<RawItemView> {
    items.map_values(|item: vcd::ScopeItem| item_content(item))
}

/// The logic states that a run of `vcd::Value` stands for, value by value.
pub open spec fn logic_values_of(bits: Seq<vcd::Value>) -> Seq<VcdValue> {
    bits.map_values(|bit: vcd::Value| logic_value_of(bit))
}

/// The fields of a `vcd::Header`.
pub struct HeaderParts<'a> {
    pub date: Option<String>,
    pub version: Option<String>,
    pub timescale: Option<(u32, vcd::TimescaleUnit)>,
    pub items: &'a Vec<vcd::ScopeItem>,
}

/// The variant of a `vcd::ScopeItem` with what it carries.
pub enum ItemParts<'a> {
    Scope(&'a vcd::Scope),
    Var(&'a vcd::Var),
    Comment(String),
    Other,
}

/// The fields of a `vcd::Scope`.
pub struct ScopeParts<'a> {
    pub scope_type: vcd::ScopeType,
    pub identifier: String,
    pub items: &'a Vec<vcd::ScopeItem>,
}

/// The fields of a `vcd::Var`, the identifier code as text.
pub struct VarParts {
    pub var_type: vcd::VarType,
    pub size: u32,
    pub code: String,
    pub reference: String,
    pub index: Option<RawIndex>,
}

/// The variant of a `vcd::Command` with what it carries, each identifier code
/// as text and a real value as the bits of its encoding.
pub enum CommandParts {
    Timestamp(u64),
    Scalar(String, vcd::Value),
    Vector(String, Vec<vcd::Value>),
    Real(String, u64),
    Str(String, String),
    Other,
}

impl HeaderParts<'_> {
    pub open spec fn content(self) -> RawHeaderView {
        RawHeaderView {
            date: text_of(self.date),
            version: text_of(self.version),
            timescale: match self.timescale {
                Some(scale) => Some((scale.0, timescale_unit_of(scale.1))),
                None => None,
            },
            items: item_contents(self.items@),
        }
    }
}

impl ItemParts<'_> {
    pub open spec fn content(self) -> RawItemView {
        match self {
            ItemParts::Scope(scope) => RawItemView::Scope(scope_content(*scope)),
            ItemParts::Var(var) => RawItemView::Var(var_content(*var)),
            ItemParts::Comment(text) => RawItemView::Comment(text@),
            ItemParts::Other => RawItemView::Other,
        }
    }
}

impl ScopeParts<'_> {
    pub open spec fn content(self) -> RawScopeView {
        RawScopeView {
            scope_type: scope_type_of(self.scope_type),
            identifier: self.identifier@,
            items: item_contents(self.items@),
        }
    }
}

impl VarParts {
    pub open spec fn content(self) -> RawVarView {
        RawVarView {
            var_type: var_type_of(self.var_type),
            size: self.size,
            code: self.code@,
            reference: self.reference@,
            index: self.index,
        }
    }
}

impl CommandParts {
    pub open spec fn content(self) -> EventView {
        match self {
            CommandParts::Timestamp(time) => EventView::Timestamp(time),
            CommandParts::Scalar(code, value) => EventView::Scalar(code@, logic_value_of(value)),
            CommandParts::Vector(code, bits) => EventView::Vector(code@, logic_values_of(bits@)),
            CommandParts::Real(code, bits) => EventView::Real(code@, bits),
            CommandParts::Str(code, text) => EventView::Str(code@, text@),
            CommandParts::Other => EventView::Other,
        }
    }
}

/// Makes a `vcd::Parser` over the bytes of `text` and calls its
/// `parse_header`. Hands out the parser, which has read just past the
/// declarations, and the header or the error that came back. Both depend on
/// the text alone.
#[verifier::external_body]
pub(crate) fn read_header<'a>(text: &'a str) -> (r: (
    vcd::Parser<&'a [u8]>,
    Result<vcd::Header, std::io::Error>,
))
    ensures
        r.1 == tokenized_header(text@),
        pending(r.0) == tokenized_body(text@),
{
    let mut reader = vcd::Parser::new(text.as_bytes());
    let header = reader.parse_header();
    (reader, header)
}

/// Calls `Iterator::next` of a `vcd::Parser`. The parser hands out what it
/// has yet to yield one by one and in order, and `None` from the end of the
/// text on.
#[verifier::external_body]
pub(crate) fn next_command(reader: &mut vcd::Parser<&[u8]>) -> (r: Option<
    Result<vcd::Command, std::io::Error>,
>)
    ensures
        pending(*old(reader)).len() == 0 ==> r is None && pending(*final(reader)).len() == 0,
        pending(*old(reader)).len() > 0 ==> r == Some(pending(*old(reader)).first()) && pending(
            *final(reader),
        ) == pending(*old(reader)).drop_first(),
{
    reader.next()
}

/// Reads the four fields of a `vcd::Header`. What the header holds is made
/// up of them.
#[verifier::external_body]
pub(crate) fn header_parts(header: &vcd::Header) -> (r: HeaderParts<'_>)
    ensures
        r.content() == header_content(*header),
{
    HeaderParts {
        date: header.date.clone(),
        version: header.version.clone(),
        timescale: header.timescale,
        items: &header.items,
    }
}

/// Tells the variants of a `vcd::ScopeItem` apart. A variant that this
/// version of the crate does not have is `Other`.
#[verifier::external_body]
pub(crate) fn item_parts(item: &vcd::ScopeItem) -> (r: ItemParts<'_>)
    ensures
        r.content() == item_content(*item),
{
    match item {
        vcd::ScopeItem::Scope(scope) => ItemParts::Scope(scope),
        vcd::ScopeItem::Var(var) => ItemParts::Var(var),
        vcd::ScopeItem::Comment(text) => ItemParts::Comment(text.clone()),
        _ => ItemParts::Other,
    }
}

/// Reads the three fields of a `vcd::Scope`. What the scope holds is made up
/// of them.
#[verifier::external_body]
pub(crate) fn scope_parts(scope: &vcd::Scope) -> (r: ScopeParts<'_>)
    ensures
        r.content() == scope_content(*scope),
{
    ScopeParts {
        scope_type: scope.scope_type,
        identifier: scope.identifier.clone(),
        items: &scope.items,
    }
}

/// Reads the five fields of a `vcd::Var`: the identifier code through its
/// `Display`, the selector variant by variant. What the variable holds is
/// made up of them.
#[verifier::external_body]
pub(crate) fn var_parts(var: &vcd::Var) -> (r: VarParts)
    ensures
        r.content() == var_content(*var),
{
    VarParts {
        var_type: var.var_type,
        size: var.size,
        code: var.code.to_string(),
        reference: var.reference.clone(),
        index: match var.index {
            Some(vcd::ReferenceIndex::BitSelect(bit)) => Some(RawIndex::BitSelect(bit)),
            Some(vcd::ReferenceIndex::Range(msb, lsb)) => Some(RawIndex::Range(msb, lsb)),
            None => None,
        },
    }
}

/// Tells the variants of a `vcd::Command` apart: an identifier code through
/// its `Display`, the bits of a vector through its iterator, a real value
/// through `to_bits`. Every variant but a timestamp and the four changes is
/// `Other`.
#[verifier::external_body]
pub(crate) fn command_parts(command: &vcd::Command) -> (r: CommandParts)
    ensures
        r.content() == command_content(*command),
{
    match command {
        vcd::Command::Timestamp(time) => CommandParts::Timestamp(*time),
        vcd::Command::ChangeScalar(id, v) => CommandParts::Scalar(id.to_string(), *v),
        vcd::Command::ChangeVector(id, v) => CommandParts::Vector(id.to_string(), v.iter().collect()),
        vcd::Command::ChangeReal(id, v) => CommandParts::Real(id.to_string(), v.to_bits()),
        vcd::Command::ChangeString(id, v) => CommandParts::Str(id.to_string(), v.clone()),
        _ => CommandParts::Other,
    }
}

/// Tells the four variants of a `vcd::Value` apart.
#[verifier::external_body]
pub(crate) fn get_vcd_value(input: vcd::Value) -> (r: VcdValue)
    ensures
        r == logic_value_of(input),
{
    match input {
        vcd::Value::V0 => VcdValue::V0,
        vcd::Value::V1 => VcdValue::V1,
        vcd::Value::X => VcdValue::X,
        vcd::Value::Z => VcdValue::Z,
    }
}

/// Tells the variants of a `vcd::ScopeType` apart. A variant that this
/// version of the crate does not have is `Other`.
#[verifier::external_body]
pub(crate) fn get_vcd_scope_type(input: vcd::ScopeType) -> (r: VcdScopeType)
    ensures
        r == scope_type_of(input),
{
    match input {
        vcd::ScopeType::Module => VcdScopeType::Module,
        vcd::ScopeType::Task => VcdScopeType::Task,
        vcd::ScopeType::Function => VcdScopeType::Function,
        vcd::ScopeType::Begin => VcdScopeType::Begin,
        vcd::ScopeType::Fork => VcdScopeType::Fork,
        _ => VcdScopeType::Other,
    }
}

/// Tells the variants of a `vcd::VarType` apart. A variant that this version
/// of the crate does not have is `Other`.
#[verifier::external_body]
pub(crate) fn get_vcd_var_type(input: VarType) -> (r: VcdVarType)
    ensures
        r == var_type_of(input),
{
    match input {
        VarType::Event => VcdVarType::Event, VarType::Integer => VcdVarType::Integer,
        VarType::Parameter => VcdVarType::Parameter, VarType::Real => VcdVarType::Real,
        VarType::Reg => VcdVarType::Reg, VarType::Time => VcdVarType::Time,
        VarType::Supply0 => VcdVarType::Supply0, VarType::Supply1 => VcdVarType::Supply1,
        VarType::Tri => VcdVarType::Tri, VarType::TriReg => VcdVarType::TriReg,
        VarType::TriAnd => VcdVarType::TriAnd, VarType::TriOr => VcdVarType::TriOr,
        VarType::Tri0 => VcdVarType::Tri0, VarType::Tri1 => VcdVarType::Tri1,
        VarType::WAnd => VcdVarType::WAnd, VarType::WOr => VcdVarType::WOr,
        VarType::Wire => VcdVarType::Wire, VarType::String => VcdVarType::String,
        _ => VcdVarType::Other,
    }
}

/// Tells the six variants of a `vcd::TimescaleUnit` apart.
#[verifier::external_body]
pub(crate) fn get_vcd_time_scale_unit(input: vcd::TimescaleUnit) -> (r: VcdTimescaleUnit)
    ensures
        r == timescale_unit_of(input),
{
    match input {
        vcd::TimescaleUnit::S => VcdTimescaleUnit::S,
        vcd::TimescaleUnit::MS => VcdTimescaleUnit::MS,
        vcd::TimescaleUnit::US => VcdTimescaleUnit::US,
        vcd::TimescaleUnit::NS => VcdTimescaleUnit::NS,
        vcd::TimescaleUnit::PS => VcdTimescaleUnit::PS,
        vcd::TimescaleUnit::FS => VcdTimescaleUnit::FS,
    }
}

} // verus!
