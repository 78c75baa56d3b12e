//! The closed value domains of a trace: logic states, time units, and the
//! kinds of scopes and variables.

use vstd::prelude::*;

verus! {

/// One state of a four-state logic bit.
#[derive(Clone, Copy, Debug, PartialEq, Eq)]
pub enum VcdValue {
    /// Logic low.
    V0,
    /// Logic high.
    V1,
    /// Unknown or uninitialised.
    X,
    /// High impedance.
    Z,
}

/// The unit in which one tick of simulated time is counted.
#[derive(Clone, Copy, Debug, PartialEq, Eq)]
pub enum VcdTimescaleUnit {
    S,
    MS,
    US,
    NS,
    PS,
    FS,
}

/// The kind of a scope. `Other` stands for every kind that is not one of the
/// five named here.
#[derive(Clone, Copy, Debug, PartialEq, Eq)]
pub enum VcdScopeType {
    Module,
    Task,
    Function,
    Begin,
    Fork,
    Other,
}

/// The kind of a variable. It classifies a signal for display and takes no
/// part in decoding its values. `Other` stands for every kind that is not
/// named here.
#[derive(Clone, Copy, Debug, PartialEq, Eq)]
pub enum VcdVarType {
    Event,
    Integer,
    Parameter,
    Real,
    Reg,
    Supply0,
    Supply1,
    Time,
    Tri,
    TriAnd,
    TriOr,
    TriReg,
    Tri0,
    Tri1,
    WAnd,
    Wire,
    WOr,
    String,
    Other,
}

} // verus!
