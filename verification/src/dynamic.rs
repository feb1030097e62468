//! Dynamically typed values that the host and the evaluator exchange.

use vstd::prelude::*;

verus! {

/// A value whose type is known only at run time.
///
/// The runtime state stores such values (the host's tag, the debugger's
/// context, global constants) and looks inside them only to print them.
#[derive(Debug, PartialEq, Eq)]
pub enum Dynamic {
    /// The empty value.
    Unit,
    /// A truth value.
    Bool(bool),
    /// An integer.
    Int(i64),
    /// A text.
    Str(String),
}

impl Clone for Dynamic {
    /// A copy that equals the value it was made from.
    fn clone(&self) -> (copy: Dynamic)
        ensures
            copy == *self,
    {
        match self {
            Dynamic::Unit => Dynamic::Unit,
            Dynamic::Bool(flag) => Dynamic::Bool(*flag),
            Dynamic::Int(number) => Dynamic::Int(*number),
            Dynamic::Str(text) => Dynamic::Str(text.clone()),
        }
    }
}

} // verus!
