//! Namespaces that are compiled into the host and found by their path.

use crate::imports::innermost;
use crate::imports::named;
use crate::imports::ImportEntry;
use crate::imports::ImportStack;
use crate::module::SharedModule;
use vstd::prelude::*;

verus! {

/// A resolver over namespaces that the host has registered under a path.
pub struct StaticModuleResolver {
    modules: ImportStack,
}

impl View for StaticModuleResolver {
    type V = Seq<ImportEntry>;

    /// The registered namespaces with their paths, in the order in which
    /// they were registered.
    closed spec fn view(&self) -> Seq<ImportEntry> {
        self.modules@
    }
}

impl StaticModuleResolver {
    /// A resolver without namespaces.
    pub fn new() -> (resolver: StaticModuleResolver)
        ensures
            resolver@ == Seq::<ImportEntry>::empty(),
    {
        StaticModuleResolver { modules: ImportStack::new() }
    }

    /// Register a namespace under a path; it takes the place of one
    /// registered earlier under the same path.
    pub fn insert(&mut self, path: String, module: SharedModule)
        ensures
            final(self)@ == old(self)@.push((path@, module)),
    {
        self.modules.push(path, module);
    }

    /// The namespace registered last under `path`, if there is one.
    pub fn resolve(&self, path: &str) -> (module: Option<SharedModule>)
        ensures
            module == match innermost(self@, named(path@)) {
                Some(i) => Some(self@[i].1),
                None => None,
            },
    {
        match self.modules.find(path) {
            Some(index) => {
                proof {
                    crate::imports::lemma_innermost(self@, named(path@));
                }
                self.modules.get(index)
            },
            None => None,
        }
    }
}

} // verus!
