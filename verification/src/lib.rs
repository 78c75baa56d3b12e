//! An in-memory model of a value-change-dump trace: the tree of scopes and
//! variables that the trace declares, and the changes of its signals grouped
//! by the instant at which they happen.
//!
//! [`parse`] reads a trace text into a [`VcdData`]. The two passes behind it
//! work on plain values and can be called on their own: [`get_vcd_header`]
//! builds the scope tree from the declarations, and [`aggregate`] groups the
//! event stream into time buckets. Every sequence of the model is read by
//! size and index, and an index past the end is an error, never a panic.

pub mod aggregator;
pub mod builder;
pub mod error;
pub mod raw;
pub mod reader;
pub mod scope;
pub mod signal;
pub mod source;
pub mod trace;
pub mod value;

pub use crate::aggregator::aggregate;
pub use crate::aggregator::Aggregator;
pub use crate::aggregator::AggregatorState;
pub use crate::builder::get_vcd_header;
pub use crate::builder::get_vcd_scope;
pub use crate::builder::get_vcd_scope_item;
pub use crate::builder::get_vcd_scope_items;
pub use crate::builder::get_vcd_var;
pub use crate::error::IndexOutOfRange;
pub use crate::error::TraceError;
pub use crate::raw::RawEvent;
pub use crate::raw::RawHeader;
pub use crate::raw::RawIndex;
pub use crate::raw::RawScope;
pub use crate::raw::RawScopeItem;
pub use crate::raw::RawVar;
pub use crate::scope::VcdHeader;
pub use crate::scope::VcdScope;
pub use crate::scope::VcdScopeItem;
pub use crate::scope::VcdVar;
pub use crate::signal::SignalDataAndTime;
pub use crate::signal::SignalDataReal;
pub use crate::signal::SignalDataScalar;
pub use crate::signal::SignalDataString;
pub use crate::signal::SignalDataVector;
pub use crate::trace::parse;
pub use crate::trace::VcdData;
pub use crate::value::VcdScopeType;
pub use crate::value::VcdTimescaleUnit;
pub use crate::value::VcdValue;
pub use crate::value::VcdVarType;
