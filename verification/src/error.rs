//! The recoverable failures of the bridge.

use vstd::prelude::*;

verus! {

/// Failures that concern a host function handle.
#[derive(Clone, Copy, Debug, PartialEq, Eq, Structural)]
pub enum FuncError {
    /// The runtime could not materialise the function object.
    Create,
    /// The registry already holds as many closures as it admits. The payload is
    /// that upper bound.
    CreateBinding(usize),
    /// The signature of a function object could not be obtained.
    Type,
}

/// Every failure that the bridge hands back to its caller.
#[derive(Clone, Copy, Debug, PartialEq, Eq, Structural)]
pub enum WasmEdgeError {
    /// A host closure reported a failure of its own. The payload is the code
    /// that the closure supplied, carried over unchanged.
    User(u32),
    /// A failure that concerns a host function handle.
    Func(FuncError),
    /// A signature could not be created.
    FuncTypeCreate,
}

} // verus!
