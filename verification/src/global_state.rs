//! The global runtime state that the evaluator threads through nested
//! evaluation frames.

use crate::constants::GlobalConstants;
use crate::debugger::Debugger;
use crate::debugger::DebuggerStatus;
use crate::dynamic::Dynamic;
use crate::engine::Engine;
use crate::hashing::empty_pair;
use crate::hashing::index_getter_hash;
use crate::hashing::index_hash_pair;
use crate::hashing::index_setter_hash;
use crate::hashing::memo_step;
use crate::hashing::IndexHashes;
use crate::imports::any;
use crate::imports::defines_fn;
use crate::imports::defines_iter;
use crate::imports::innermost;
use crate::imports::listed;
use crate::imports::may_define_dynamic_fn;
use crate::imports::named;
use crate::imports::opt_text;
use crate::imports::resolve_fn;
use crate::imports::resolve_iter;
use crate::imports::ImportEntry;
use crate::imports::ImportStack;
use crate::module::CallableFunction;
use crate::module::IteratorFn;
use crate::module::Module;
use crate::module::SharedModule;
use crate::module::TypeTag;
use crate::resolver::StaticModuleResolver;
use crate::shared::share;
use std::sync::Arc;
use vstd::prelude::*;

verus! {

/// Global runtime state.
///
/// The names of the imports are kept apart from the namespaces: most uses
/// look a name up and then fetch the namespace at the index found.
pub struct GlobalRuntimeState {
    /// The stack of imported namespaces.
    pub imports: ImportStack,
    /// The current stack of loaded namespaces.
    pub lib: Vec<SharedModule>,
    /// Source of the current context; none where it is absent.
    pub source: Option<String>,
    /// Number of operations performed.
    pub num_operations: u64,
    /// Number of namespaces loaded.
    pub num_modules_loaded: usize,
    /// The current nesting level of function calls.
    pub level: usize,
    /// Level of the current scope: zero at the top, one more for each block
    /// or function call entered.
    pub scope_level: usize,
    /// Force a search of the scope by name.
    ///
    /// Variables are normally reached by an offset into the scope. What
    /// changes the layout of the scope behind the parser's back turns this
    /// flag on; nothing here turns it off again.
    pub always_search_scope: bool,
    /// Hashes of the index getter and the index setter; both zero until
    /// one of them is first asked for.
    pub fn_hash_indexing: IndexHashes,
    /// Resolver over the namespaces that are compiled into the host.
    pub embedded_module_resolver: Option<Arc<StaticModuleResolver>>,
    /// Cache of global constants, shared by every clone of this state.
    pub constants: Option<GlobalConstants>,
    /// Custom state that the host can use.
    pub tag: Dynamic,
    /// The debugger hookpoint.
    pub debugger: Debugger,
}

/// The runtime state as the contracts see it.
pub struct GlobalRuntimeStateView {
    /// The imports in the order in which they were pushed.
    pub imports: Seq<ImportEntry>,
    /// The loaded namespaces.
    pub lib: Seq<SharedModule>,
    /// The text of the source label, if there is one.
    pub source: Option<Seq<char>>,
    /// Number of operations performed.
    pub num_operations: u64,
    /// Number of namespaces loaded.
    pub num_modules_loaded: usize,
    /// The nesting level of function calls.
    pub level: usize,
    /// The level of the current scope.
    pub scope_level: usize,
    /// Whether the scope is searched by name.
    pub always_search_scope: bool,
    /// The cached hashes of the index getter and the index setter.
    pub fn_hash_indexing: (u64, u64),
    /// The handle to the embedded resolver.
    pub embedded_module_resolver: Option<Arc<StaticModuleResolver>>,
    /// The handle to the cache of global constants.
    pub constants: Option<GlobalConstants>,
    /// The host's tag.
    pub tag: Dynamic,
    /// The debugger hookpoint.
    pub debugger: Debugger,
}

/// The text of an optional label.
pub open spec fn label_text(label: Option<String>) -> Option<Seq<char>> {
    match label {
        Some(text) => Some(text@),
        None => None,
    }
}

/// The debugger hookpoint of a new state: waiting to be entered, with the
/// context that the engine supplies, where the host has registered a
/// debugger; else running on, with the empty context.
pub open spec fn initial_debugger(engine: Engine) -> Debugger {
    match engine.debugger {
        Some(context) => Debugger { status: DebuggerStatus::Init, state: context },
        None => Debugger { status: DebuggerStatus::Continue, state: Dynamic::Unit },
    }
}

impl View for GlobalRuntimeState {
    type V = GlobalRuntimeStateView;

    open spec fn view(&self) -> GlobalRuntimeStateView {
        GlobalRuntimeStateView {
            imports: self.imports@,
            lib: self.lib@,
            source: label_text(self.source),
            num_operations: self.num_operations,
            num_modules_loaded: self.num_modules_loaded,
            level: self.level,
            scope_level: self.scope_level,
            always_search_scope: self.always_search_scope,
            fn_hash_indexing: self.fn_hash_indexing@,
            embedded_module_resolver: self.embedded_module_resolver,
            constants: self.constants,
            tag: self.tag,
            debugger: self.debugger,
        }
    }
}

/// What a borrowed listing of names and namespaces shows.
pub open spec fn listed_plain(items: Seq<(&str, &Module)>) -> Seq<(Seq<char>, Module)> {
    Seq::new(items.len(), |i: int| (items[i].0@, *items[i].1))
}

/// Imports with the namespaces themselves in place of the handles.
pub open spec fn plain(entries: Seq<ImportEntry>) -> Seq<(Seq<char>, Module)> {
    Seq::new(entries.len(), |i: int| (entries[i].0, *entries[i].1))
}

/// What an owned listing of imports shows.
pub open spec fn owned_entries(items: Seq<(String, SharedModule)>) -> Seq<ImportEntry> {
    Seq::new(items.len(), |i: int| (items[i].0@, items[i].1))
}

impl GlobalRuntimeState {
    /// A new state from the defaults of an engine.
    #[must_use]
    pub fn new(engine: &Engine) -> (state: GlobalRuntimeState)
        ensures
            state@ == (GlobalRuntimeStateView {
                imports: Seq::empty(),
                lib: Seq::empty(),
                source: None,
                num_operations: 0,
                num_modules_loaded: 0,
                level: 0,
                scope_level: 0,
                always_search_scope: false,
                fn_hash_indexing: empty_pair(),
                embedded_module_resolver: None,
                constants: None,
                tag: engine.def_tag,
                debugger: initial_debugger(*engine),
            }),
    {
        let debugger = match &engine.debugger {
            Some(context) => Debugger::new(DebuggerStatus::Init, context.clone()),
            None => Debugger::new(DebuggerStatus::Continue, Dynamic::Unit),
        };
        GlobalRuntimeState {
            imports: ImportStack::new(),
            lib: Vec::new(),
            source: None,
            num_operations: 0,
            num_modules_loaded: 0,
            scope_level: 0,
            level: 0,
            always_search_scope: false,
            embedded_module_resolver: None,
            fn_hash_indexing: IndexHashes::new(),
            constants: None,
            tag: engine.default_tag().clone(),
            debugger,
        }
    }

    /// The length of the stack of imported namespaces.
    #[must_use]
    pub fn num_imports(&self) -> (n: usize)
        ensures
            n == self@.imports.len(),
    {
        self.imports.len()
    }

    /// The imported namespace at `index`, if there is one.
    #[must_use]
    pub fn get_shared_import(&self, index: usize) -> (module: Option<SharedModule>)
        ensures
            module == (if index < self@.imports.len() {
                Some(self@.imports[index as int].1)
            } else {
                None
            }),
    {
        self.imports.get(index)
    }

    /// The slot of the imported namespace at `index`, if there is one; what
    /// the caller leaves in the slot takes the place of the namespace.
    #[must_use]
    pub fn get_shared_import_mut(&mut self, index: usize) -> (slot: Option<&mut SharedModule>)
        ensures
            match slot {
                Some(place) => {
                    &&& index < old(self)@.imports.len()
                    &&& *place == old(self)@.imports[index as int].1
                    &&& final(self)@ == (GlobalRuntimeStateView {
                        imports: old(self)@.imports.update(
                            index as int,
                            (old(self)@.imports[index as int].0, *final(place)),
                        ),
                        ..old(self)@
                    })
                },
                None => index >= old(self)@.imports.len() && final(self)@ == old(self)@,
            },
    {
        self.imports.get_mut(index)
    }

    /// The index of an imported namespace by name: that of the most recent
    /// import under the name.
    #[must_use]
    pub fn find_import(&self, name: &str) -> (index: Option<usize>)
        ensures
            match index {
                Some(i) => innermost(self@.imports, named(name@)) == Some(i as int),
                None => innermost(self@.imports, named(name@)) is None,
            },
    {
        self.imports.find(name)
    }

    /// Push an imported namespace onto the stack.
    pub fn push_import(&mut self, name: String, module: SharedModule)
        ensures
            final(self)@ == (GlobalRuntimeStateView {
                imports: old(self)@.imports.push((name@, module)),
                ..old(self)@
            }),
    {
        self.imports.push(name, module);
    }

    /// Cut the stack of imported namespaces back to its first `size`
    /// imports; a stack that is not longer than `size` stays as it is.
    pub fn truncate_imports(&mut self, size: usize)
        ensures
            final(self)@ == (GlobalRuntimeStateView {
                imports: if size <= old(self)@.imports.len() {
                    old(self)@.imports.take(size as int)
                } else {
                    old(self)@.imports
                },
                ..old(self)@
            }),
            size <= old(self)@.imports.len() ==> final(self)@.imports.len() == size,
            forall|i: int|
                0 <= i < size && i < old(self)@.imports.len() ==> #[trigger] final(self)@.imports[i]
                    == old(self)@.imports[i],
    {
        self.imports.truncate(size);
    }

    /// The imported namespaces with their names, most recent first.
    pub fn iter_imports(&self) -> (items: Vec<(&str, &Module)>)
        ensures
            listed_plain(items@) == plain(self@.imports.reverse()),
    {
        let raw = self.imports.iter_reverse();
        let mut items: Vec<(&str, &Module)> = Vec::new();
        let mut i: usize = 0;
        while i < raw.len()
            invariant
                i <= raw@.len(),
                items@.len() == i,
                forall|k: int|
                    0 <= k < i ==> (#[trigger] items@[k]).0@ == raw@[k].0@ && *items@[k].1
                        == **raw@[k].1,
            decreases raw@.len() - i,
        {
            let (name, module) = raw[i];
            items.push((name.as_str(), &**module));
            i += 1;
        }
        proof {
            assert(listed_plain(items@) =~= plain(listed(raw@)));
        }
        items
    }

    /// The imported namespaces with their names as they are held, most
    /// recent first.
    pub fn iter_imports_raw(&self) -> (items: Vec<(&String, &SharedModule)>)
        ensures
            listed(items@) == self@.imports.reverse(),
    {
        self.imports.iter_reverse()
    }

    /// The imported namespaces with their names as they are held, in the
    /// order in which they were imported.
    pub fn scan_imports_raw(&self) -> (items: Vec<(&String, &SharedModule)>)
        ensures
            listed(items@) == self@.imports,
    {
        self.imports.iter_forward()
    }

    /// Can a function with dynamic parameters exist under this script hash
    /// in the stack of imported namespaces?
    pub fn may_contain_dynamic_fn(&self, hash_script: u64) -> (found: bool)
        ensures
            found == any(self@.imports, may_define_dynamic_fn(hash_script)),
    {
        self.imports.may_contain_dynamic_fn(hash_script)
    }

    /// Does the function hash exist in the stack of imported namespaces?
    #[must_use]
    pub fn contains_qualified_fn(&self, hash: u64) -> (found: bool)
        ensures
            found == any(self@.imports, defines_fn(hash)),
            found == (resolve_fn(self@.imports, hash) is Some),
    {
        self.imports.contains_fn(hash)
    }

    /// The function under this hash and the name of the namespace that owns
    /// it, from the most recent import that defines one.
    #[must_use]
    pub fn get_qualified_fn(&self, hash: u64) -> (found: Option<
        (&CallableFunction, Option<&String>),
    >)
        ensures
            match found {
                Some((func, owner)) => resolve_fn(self@.imports, hash) == Some(
                    (*func, opt_text(owner)),
                ),
                None => resolve_fn(self@.imports, hash) is None,
            },
    {
        self.imports.get_fn(hash)
    }

    /// Does an iterator constructor for this type exist in the stack of
    /// imported namespaces?
    #[must_use]
    pub fn contains_iter(&self, id: TypeTag) -> (found: bool)
        ensures
            found == any(self@.imports, defines_iter(id)),
            found == (resolve_iter(self@.imports, id) is Some),
    {
        self.imports.contains_iterator(id)
    }

    /// The iterator constructor for this type, from the most recent import
    /// that defines one.
    #[must_use]
    pub fn get_iter(&self, id: TypeTag) -> (found: Option<&IteratorFn>)
        ensures
            match found {
                Some(func) => resolve_iter(self@.imports, id) == Some(*func),
                None => resolve_iter(self@.imports, id) is None,
            },
    {
        self.imports.get_iterator(id)
    }

    /// The current source, if there is one.
    #[must_use]
    pub fn source(&self) -> (label: Option<&str>)
        ensures
            match label {
                Some(text) => self@.source == Some(text@),
                None => self@.source is None,
            },
    {
        match &self.source {
            Some(text) => Some(text.as_str()),
            None => None,
        }
    }

    /// The current source as it is held, if there is one.
    #[must_use]
    pub fn source_raw(&self) -> (label: Option<&String>)
        ensures
            match label {
                Some(text) => self@.source == Some(text@),
                None => self@.source is None,
            },
    {
        self.source.as_ref()
    }

    /// The hash of the index getter. The first call for either index hash
    /// computes both and keeps them; later calls hand out what was kept.
    #[must_use]
    pub fn hash_idx_get(&mut self) -> (hash: u64)
        ensures
            hash == index_getter_hash(),
            hash != 0,
            final(self)@ == (GlobalRuntimeStateView {
                fn_hash_indexing: index_hash_pair(),
                ..old(self)@
            }),
            memo_step(old(self)@.fn_hash_indexing, final(self)@.fn_hash_indexing),
    {
        self.fn_hash_indexing.getter()
    }

    /// The hash of the index setter. The first call for either index hash
    /// computes both and keeps them; later calls hand out what was kept.
    #[must_use]
    pub fn hash_idx_set(&mut self) -> (hash: u64)
        ensures
            hash == index_setter_hash(),
            hash != 0,
            final(self)@ == (GlobalRuntimeStateView {
                fn_hash_indexing: index_hash_pair(),
                ..old(self)@
            }),
            memo_step(old(self)@.fn_hash_indexing, final(self)@.fn_hash_indexing),
    {
        self.fn_hash_indexing.setter()
    }

    /// Push every import of `items` onto the stack, in their order.
    pub fn extend(&mut self, items: Vec<(String, SharedModule)>)
        ensures
            final(self)@ == (GlobalRuntimeStateView {
                imports: old(self)@.imports + owned_entries(items@),
                ..old(self)@
            }),
    {
        let ghost before = self@;
        let ghost all = items@;
        for entry in it: items
            invariant
                it.seq() == all,
                self@ == (GlobalRuntimeStateView {
                    imports: before.imports + owned_entries(all.take(it.index())),
                    ..before
                }),
        {
            let (name, module) = entry;
            proof {
                let done = it.index();
                assert(owned_entries(all.take(done + 1)) =~= owned_entries(all.take(done)).push(
                    (name@, module),
                ));
                assert(before.imports + owned_entries(all.take(done)).push((name@, module))
                    =~= (before.imports + owned_entries(all.take(done))).push((name@, module)));
            }
            self.imports.push(name, module);
        }
        proof {
            assert(all.take(all.len() as int) =~= all);
        }
    }
}

impl Clone for GlobalRuntimeState {
    /// A state for a frame of its own: the imports, the loaded namespaces,
    /// the counters and the flags are copied, so that what the copy does to
    /// them leaves this state alone; the cache of constants and the
    /// embedded resolver are shared by handle.
    fn clone(&self) -> (copy: GlobalRuntimeState)
        ensures
            copy@ == self@,
    {
        let mut lib: Vec<SharedModule> = Vec::new();
        let mut i: usize = 0;
        while i < self.lib.len()
            invariant
                i <= self.lib@.len(),
                lib@ == self.lib@.take(i as int),
            decreases self.lib@.len() - i,
        {
            lib.push(share(&self.lib[i]));
            proof {
                assert(self.lib@.take(i + 1) =~= self.lib@.take(i as int).push(self.lib@[i as int]));
            }
            i += 1;
        }
        proof {
            assert(self.lib@.take(i as int) =~= self.lib@);
        }
        GlobalRuntimeState {
            imports: self.imports.clone(),
            lib,
            source: match &self.source {
                Some(text) => Some(text.clone()),
                None => None,
            },
            num_operations: self.num_operations,
            num_modules_loaded: self.num_modules_loaded,
            level: self.level,
            scope_level: self.scope_level,
            always_search_scope: self.always_search_scope,
            fn_hash_indexing: self.fn_hash_indexing,
            embedded_module_resolver: match &self.embedded_module_resolver {
                Some(resolver) => Some(share(resolver)),
                None => None,
            },
            constants: match &self.constants {
                Some(cache) => Some(cache.clone()),
                None => None,
            },
            tag: self.tag.clone(),
            debugger: self.debugger.clone(),
        }
    }
}

} // verus!
