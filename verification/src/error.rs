//! What can go wrong: a trace that cannot be read, and an index past the end.

use vstd::prelude::*;

verus! {

/// Why a trace could not be turned into a model. Every failure is final: no
/// partial model is handed out.
#[derive(Debug)]
pub enum TraceError {
    /// The declarations at the head of the text are not well-formed. Holds the
    /// tokenizer's error as it came, with the line it names.
    Decode(std::io::Error),
    /// The declarations hold no date, no version or no timescale.
    MissingMetadata,
    /// A value change after the declarations is not well-formed. Holds the
    /// tokenizer's error as it came, with the line it names.
    StreamDecode(std::io::Error),
}

/// An index that does not name an element: `index` was asked of a sequence of
/// `len` elements.
#[derive(Clone, Copy, Debug, PartialEq, Eq)]
pub struct IndexOutOfRange {
    pub index: usize,
    pub len: usize,
}

} // verus!
