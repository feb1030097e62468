//! Namespaces: shared, read-mostly collections of functions and iterator
//! constructors that a script imports by name.

use std::collections::HashMap;
use std::collections::HashSet;
use std::sync::Arc;
use vstd::prelude::*;

verus! {

/// Handle to a function that a namespace contributes.
#[derive(Clone, Copy, Debug, PartialEq, Eq)]
pub struct CallableFunction {
    /// The slot of the function in the host's function table.
    pub id: u64,
}

/// Handle to an iterator constructor that a namespace contributes.
#[derive(Clone, Copy, Debug, PartialEq, Eq)]
pub struct IteratorFn {
    /// The slot of the constructor in the host's function table.
    pub id: u64,
}

/// Tag that identifies a type at run time.
#[derive(Clone, Copy, Debug, PartialEq, Eq)]
pub struct TypeTag {
    /// The number that stands for the type.
    pub raw: u64,
}

/// A namespace: an optional name and the dispatch tables behind it.
#[derive(Debug)]
pub struct Module {
    id: Option<String>,
    functions: HashMap<u64, CallableFunction>,
    iterators: HashMap<u64, IteratorFn>,
    dynamic_functions: HashSet<u64>,
}

/// A namespace shared between every state that imported it.
pub type SharedModule = Arc<Module>;

impl Module {
    /// The name of the namespace, if it has one.
    pub closed spec fn id(&self) -> Option<Seq<char>> {
        match self.id {
            Some(name) => Some(name@),
            None => None,
        }
    }

    /// The qualified functions of the namespace, by dispatch hash.
    pub closed spec fn functions(&self) -> Map<u64, CallableFunction> {
        self.functions@
    }

    /// The iterator constructors of the namespace, by the raw type tag.
    pub closed spec fn iterators(&self) -> Map<u64, IteratorFn> {
        self.iterators@
    }

    /// The script hashes under which a function with dynamic parameters may
    /// be found.
    pub closed spec fn dynamic_functions(&self) -> Set<u64> {
        self.dynamic_functions@
    }

    /// A namespace without a name and with empty tables.
    pub fn new() -> (module: Module)
        ensures
            module.id() is None,
            module.functions() == Map::<u64, CallableFunction>::empty(),
            module.iterators() == Map::<u64, IteratorFn>::empty(),
            module.dynamic_functions() == Set::<u64>::empty(),
    {
        Module {
            id: None,
            functions: HashMap::new(),
            iterators: HashMap::new(),
            dynamic_functions: HashSet::new(),
        }
    }

    /// Name the namespace.
    pub fn set_id(&mut self, id: String)
        ensures
            final(self).id() == Some(id@),
            final(self).functions() == old(self).functions(),
            final(self).iterators() == old(self).iterators(),
            final(self).dynamic_functions() == old(self).dynamic_functions(),
    {
        self.id = Some(id);
    }

    /// Register a qualified function under its dispatch hash; a function
    /// registered earlier under the same hash is replaced.
    pub fn set_fn(&mut self, hash: u64, func: CallableFunction)
        ensures
            final(self).functions() == old(self).functions().insert(hash, func),
            final(self).id() == old(self).id(),
            final(self).iterators() == old(self).iterators(),
            final(self).dynamic_functions() == old(self).dynamic_functions(),
    {
        broadcast use vstd::std_specs::hash::group_hash_axioms;

        self.functions.insert(hash, func);
    }

    /// Register an iterator constructor for a type; one registered earlier
    /// for the same type is replaced.
    pub fn set_iter(&mut self, id: TypeTag, func: IteratorFn)
        ensures
            final(self).iterators() == old(self).iterators().insert(id.raw, func),
            final(self).id() == old(self).id(),
            final(self).functions() == old(self).functions(),
            final(self).dynamic_functions() == old(self).dynamic_functions(),
    {
        broadcast use vstd::std_specs::hash::group_hash_axioms;

        self.iterators.insert(id.raw, func);
    }

    /// Record that a function with dynamic parameters may be found under a
    /// script hash.
    pub fn set_dynamic_fn(&mut self, hash_script: u64)
        ensures
            final(self).dynamic_functions() == old(self).dynamic_functions().insert(hash_script),
            final(self).id() == old(self).id(),
            final(self).functions() == old(self).functions(),
            final(self).iterators() == old(self).iterators(),
    {
        broadcast use vstd::std_specs::hash::group_hash_axioms;

        self.dynamic_functions.insert(hash_script);
    }

    /// The name of the namespace, if it has one.
    pub fn id_raw(&self) -> (name: Option<&String>)
        ensures
            match name {
                Some(text) => self.id() == Some(text@),
                None => self.id() is None,
            },
    {
        self.id.as_ref()
    }

    /// Can a function with dynamic parameters exist under this script hash?
    pub fn may_contain_dynamic_fn(&self, hash_script: u64) -> (found: bool)
        ensures
            found == self.dynamic_functions().contains(hash_script),
    {
        broadcast use vstd::std_specs::hash::group_hash_axioms;

        self.dynamic_functions.contains(&hash_script)
    }

    /// Does the namespace hold a qualified function under this hash?
    pub fn contains_qualified_fn(&self, hash: u64) -> (found: bool)
        ensures
            found == self.functions().contains_key(hash),
    {
        broadcast use vstd::std_specs::hash::group_hash_axioms;

        self.functions.contains_key(&hash)
    }

    /// The qualified function under this hash, if the namespace holds one.
    pub fn get_qualified_fn(&self, hash: u64) -> (func: Option<&CallableFunction>)
        ensures
            func == (if self.functions().contains_key(hash) {
                Some(&self.functions()[hash])
            } else {
                None
            }),
    {
        broadcast use vstd::std_specs::hash::group_hash_axioms;

        self.functions.get(&hash)
    }

    /// Does the namespace hold an iterator constructor for this type?
    pub fn contains_qualified_iter(&self, id: TypeTag) -> (found: bool)
        ensures
            found == self.iterators().contains_key(id.raw),
    {
        broadcast use vstd::std_specs::hash::group_hash_axioms;

        self.iterators.contains_key(&id.raw)
    }

    /// The iterator constructor for this type, if the namespace holds one.
    pub fn get_qualified_iter(&self, id: TypeTag) -> (func: Option<&IteratorFn>)
        ensures
            func == (if self.iterators().contains_key(id.raw) {
                Some(&self.iterators()[id.raw])
            } else {
                None
            }),
    {
        broadcast use vstd::std_specs::hash::group_hash_axioms;

        self.iterators.get(&id.raw)
    }
}

} // verus!
