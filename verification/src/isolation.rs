//! Isolations: the sandboxes in which instances run.
use crate::engine::ZenIsolationExtern;
use crate::engine::ZenRuntimeExtern;
use vstd::prelude::*;

verus! {

/// An isolation of a runtime. It is a name for what the runtime keeps: the
/// runtime decides whether the name is still good, and when the engine object
/// goes.
#[derive(Clone, Copy, PartialEq, Eq, Structural, Debug)]
pub struct ZenIsolation {
    /// The runtime that made the isolation.
    pub rt: ZenRuntimeExtern,
    pub ptr: ZenIsolationExtern,
    /// The position of the isolation in its runtime.
    pub slot: usize,
}

} // verus!
