//! The defaults that the engine supplies when a runtime state is made.

use crate::dynamic::Dynamic;
use vstd::prelude::*;

verus! {

/// The part of the engine that a new runtime state reads.
#[derive(Debug)]
pub struct Engine {
    /// The value that the tag of a new state starts with.
    pub def_tag: Dynamic,
    /// The context that the debugger starts with, where the host has
    /// registered a debugger.
    pub debugger: Option<Dynamic>,
}

impl Engine {
    /// An engine with the empty value as default tag and without a debugger.
    pub fn new() -> (engine: Engine)
        ensures
            engine.def_tag == Dynamic::Unit,
            engine.debugger is None,
    {
        Engine { def_tag: Dynamic::Unit, debugger: None }
    }

    /// The value that the tag of a new state starts with.
    pub fn default_tag(&self) -> (tag: &Dynamic)
        ensures
            *tag == self.def_tag,
    {
        &self.def_tag
    }
}

} // verus!
