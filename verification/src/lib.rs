//! Global runtime state of a script evaluator: the stack of imported
//! namespaces, memoized dispatch hashes, the shared cache of global constants,
//! execution counters and the debugger hookpoint, with machine-checked
//! contracts.

pub mod constants;
pub mod debugger;
pub mod dump;
pub mod dynamic;
pub mod engine;
pub mod global_state;
pub mod hashing;
pub mod imports;
pub mod module;
pub mod render;
pub mod resolver;
pub mod shared;
pub mod text;

pub use crate::constants::GlobalConstants;
pub use crate::debugger::Debugger;
pub use crate::debugger::DebuggerStatus;
pub use crate::dynamic::Dynamic;
pub use crate::engine::Engine;
pub use crate::global_state::GlobalRuntimeState;
pub use crate::hashing::calc_fn_hash;
pub use crate::imports::ImportStack;
pub use crate::module::Module;
pub use crate::module::SharedModule;
