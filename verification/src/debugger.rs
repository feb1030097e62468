//! The debugger hookpoint: a status and a context that the state carries
//! between evaluation steps. The debugger itself drives every transition.

use crate::dynamic::Dynamic;
use vstd::prelude::*;

verus! {

/// What the debugger wants of the next evaluation step.
#[derive(Clone, Copy, Debug, PartialEq, Eq)]
pub enum DebuggerStatus {
    /// The debugger has not been entered yet.
    Init,
    /// Run on until a break-point is hit.
    Continue,
    /// Stop at the next step.
    Next,
    /// Stop the evaluation.
    Terminate,
}

/// The state of the debugger hookpoint.
#[derive(Debug)]
pub struct Debugger {
    /// The current status.
    pub status: DebuggerStatus,
    /// The context that the host keeps between steps.
    pub state: Dynamic,
}

impl Debugger {
    /// A hookpoint with the given status and context.
    pub fn new(status: DebuggerStatus, state: Dynamic) -> (debugger: Debugger)
        ensures
            debugger.status == status,
            debugger.state == state,
    {
        Debugger { status, state }
    }
}

impl Clone for Debugger {
    /// A copy that equals the value it was made from.
    fn clone(&self) -> (copy: Debugger)
        ensures
            copy == *self,
    {
        Debugger { status: self.status, state: self.state.clone() }
    }
}

} // verus!
