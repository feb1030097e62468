//! The stack of imported namespaces.
//!
//! Names and namespace handles are kept in two sequences that move in
//! lockstep: a lookup scans the names and then fetches the handle at the
//! index it found. A later import shadows an earlier one of the same name.

use crate::module::CallableFunction;
use crate::module::IteratorFn;
use crate::module::SharedModule;
use crate::module::TypeTag;
use crate::shared::share;
use crate::text::str_eq;
use vstd::prelude::*;

verus! {

/// One import as the contracts see it: the name and the namespace handle.
pub type ImportEntry = (Seq<char>, SharedModule);

/// The index of the innermost (last) element that is `wanted`.
pub open spec fn innermost<T>(stack: Seq<T>, wanted: spec_fn(T) -> bool) -> Option<int>
    decreases stack.len(),
{
    if stack.len() == 0 {
        None
    } else if wanted(stack.last()) {
        Some(stack.len() - 1)
    } else {
        innermost(stack.drop_last(), wanted)
    }
}

/// Whether some element is `wanted`.
pub open spec fn any<T>(stack: Seq<T>, wanted: spec_fn(T) -> bool) -> bool {
    exists|i: int| 0 <= i < stack.len() && wanted(#[trigger] stack[i])
}

/// Imports under the given name.
pub open spec fn named(name: Seq<char>) -> spec_fn(ImportEntry) -> bool {
    |entry: ImportEntry| entry.0 == name
}

/// Imports whose namespace holds a qualified function under `hash`.
pub open spec fn defines_fn(hash: u64) -> spec_fn(ImportEntry) -> bool {
    |entry: ImportEntry| entry.1.functions().contains_key(hash)
}

/// Imports whose namespace holds an iterator constructor for `id`.
pub open spec fn defines_iter(id: TypeTag) -> spec_fn(ImportEntry) -> bool {
    |entry: ImportEntry| entry.1.iterators().contains_key(id.raw)
}

/// Imports whose namespace may hold a function with dynamic parameters under
/// `hash_script`.
pub open spec fn may_define_dynamic_fn(hash_script: u64) -> spec_fn(ImportEntry) -> bool {
    |entry: ImportEntry| entry.1.dynamic_functions().contains(hash_script)
}

/// The qualified function under `hash` with the name of the namespace that
/// owns it: those of the innermost import that defines one.
pub open spec fn resolve_fn(stack: Seq<ImportEntry>, hash: u64) -> Option<
    (CallableFunction, Option<Seq<char>>),
> {
    match innermost(stack, defines_fn(hash)) {
        Some(i) => Some((stack[i].1.functions()[hash], stack[i].1.id())),
        None => None,
    }
}

/// The iterator constructor for `id`: that of the innermost import that
/// defines one.
pub open spec fn resolve_iter(stack: Seq<ImportEntry>, id: TypeTag) -> Option<IteratorFn> {
    match innermost(stack, defines_iter(id)) {
        Some(i) => Some(stack[i].1.iterators()[id.raw]),
        None => None,
    }
}

/// What `innermost` finds: an index whose element is wanted while no later
/// one is; and nothing exactly when no element is wanted.
pub proof fn lemma_innermost<T>(stack: Seq<T>, wanted: spec_fn(T) -> bool)
    ensures
        match innermost(stack, wanted) {
            Some(i) => {
                &&& 0 <= i < stack.len()
                &&& wanted(stack[i])
                &&& forall|j: int| i < j < stack.len() ==> !wanted(#[trigger] stack[j])
            },
            None => forall|j: int| 0 <= j < stack.len() ==> !wanted(#[trigger] stack[j]),
        },
        innermost(stack, wanted) is Some <==> any(stack, wanted),
    decreases stack.len(),
{
    if stack.len() > 0 {
        if wanted(stack.last()) {
            assert(wanted(stack[stack.len() - 1]));
        } else {
            let rest = stack.drop_last();
            lemma_innermost(rest, wanted);
            assert forall|j: int| 0 <= j < stack.len() && wanted(stack[j]) implies j < rest.len()
                && wanted(rest[j]) by {}
            if innermost(rest, wanted) is Some {
                assert(wanted(stack[innermost(rest, wanted)->0]));
            }
        }
    }
}

/// An index whose element is wanted while no later one is, is the innermost.
pub proof fn lemma_innermost_is<T>(stack: Seq<T>, wanted: spec_fn(T) -> bool, i: int)
    requires
        0 <= i < stack.len(),
        wanted(stack[i]),
        forall|j: int| i < j < stack.len() ==> !wanted(#[trigger] stack[j]),
    ensures
        innermost(stack, wanted) == Some(i),
{
    lemma_innermost(stack, wanted);
}

/// Where no element is wanted, there is no innermost one.
pub proof fn lemma_innermost_none<T>(stack: Seq<T>, wanted: spec_fn(T) -> bool)
    requires
        forall|j: int| 0 <= j < stack.len() ==> !wanted(#[trigger] stack[j]),
    ensures
        innermost(stack, wanted) is None,
{
    lemma_innermost(stack, wanted);
}

/// Cutting a stack back to `size` imports leaves exactly `size` imports, and
/// each of them is the pair of name and namespace that stood at its index
/// before.
pub proof fn lemma_truncate_keeps_prefix(stack: Seq<ImportEntry>, size: int)
    requires
        0 <= size <= stack.len(),
    ensures
        stack.take(size).len() == size,
        forall|i: int| 0 <= i < size ==> #[trigger] stack.take(size)[i] == stack[i],
{
}

/// Cutting a stack back to the length that it had before some imports were
/// pushed gives the stack as it was.
pub proof fn lemma_truncate_undoes_pushes(
    stack: Seq<ImportEntry>,
    entry: ImportEntry,
    pushed: Seq<ImportEntry>,
)
    ensures
        stack.push(entry).take(stack.len() as int) == stack,
        (stack + pushed).take(stack.len() as int) == stack,
{
    assert(stack.push(entry).take(stack.len() as int) =~= stack);
    assert((stack + pushed).take(stack.len() as int) =~= stack);
}

/// An import that was just pushed is the one that its name finds, whatever
/// was imported under that name before, and its index holds its namespace.
pub proof fn lemma_push_shadows(stack: Seq<ImportEntry>, name: Seq<char>, module: SharedModule)
    ensures
        innermost(stack.push((name, module)), named(name)) == Some(stack.len() as int),
        stack.push((name, module))[stack.len() as int].1 == module,
{
    let pushed = stack.push((name, module));
    assert(named(name)(pushed.last()));
}

/// Pushing an import leaves what every other name finds as it was.
pub proof fn lemma_push_keeps_other_names(
    stack: Seq<ImportEntry>,
    name: Seq<char>,
    module: SharedModule,
    other: Seq<char>,
)
    requires
        other != name,
    ensures
        innermost(stack.push((name, module)), named(other)) == innermost(stack, named(other)),
{
    let pushed = stack.push((name, module));
    assert(!named(other)(pushed.last()));
    assert(pushed.drop_last() =~= stack);
}

/// A namespace that was just pushed answers for every function that it
/// defines, whatever the namespaces imported before it define.
pub proof fn lemma_push_wins_on_collision(
    stack: Seq<ImportEntry>,
    name: Seq<char>,
    module: SharedModule,
    hash: u64,
)
    requires
        module.functions().contains_key(hash),
    ensures
        resolve_fn(stack.push((name, module)), hash) == Some(
            (module.functions()[hash], module.id()),
        ),
{
    let pushed = stack.push((name, module));
    assert(defines_fn(hash)(pushed.last()));
}

/// The listing from the most recent import down holds at each place the
/// import that the listing in the order of insertion holds at the mirrored
/// place, and both hold the same pairs equally often.
pub proof fn lemma_iteration_orders_agree(stack: Seq<ImportEntry>)
    ensures
        stack.reverse().len() == stack.len(),
        forall|i: int|
            0 <= i < stack.len() ==> #[trigger] stack.reverse()[i] == stack[stack.len() - 1 - i],
        stack.reverse().to_multiset() == stack.to_multiset(),
{
    stack.lemma_reverse_to_multiset();
}

/// Over an empty stack every lookup answers with absence.
pub proof fn lemma_empty_stack_resolves_nothing(
    stack: Seq<ImportEntry>,
    name: Seq<char>,
    hash: u64,
    id: TypeTag,
)
    requires
        stack.len() == 0,
    ensures
        innermost(stack, named(name)) is None,
        !any(stack, may_define_dynamic_fn(hash)),
        !any(stack, defines_fn(hash)),
        resolve_fn(stack, hash) is None,
        !any(stack, defines_iter(id)),
        resolve_iter(stack, id) is None,
{
}

/// A lookup finds a function exactly when some imported namespace defines
/// one, and what it finds is defined by an imported namespace.
pub proof fn lemma_resolve_fn_sound(stack: Seq<ImportEntry>, hash: u64)
    ensures
        resolve_fn(stack, hash) is Some <==> any(stack, defines_fn(hash)),
        resolve_fn(stack, hash) matches Some(found) ==> exists|i: int|
            0 <= i < stack.len() && (#[trigger] stack[i]).1.functions().contains_key(hash)
                && found == (stack[i].1.functions()[hash], stack[i].1.id()),
{
    lemma_innermost(stack, defines_fn(hash));
}

/// A lookup finds an iterator constructor exactly when some imported
/// namespace defines one, and what it finds is defined by an imported
/// namespace.
pub proof fn lemma_resolve_iter_sound(stack: Seq<ImportEntry>, id: TypeTag)
    ensures
        resolve_iter(stack, id) is Some <==> any(stack, defines_iter(id)),
        resolve_iter(stack, id) matches Some(found) ==> exists|i: int|
            0 <= i < stack.len() && (#[trigger] stack[i]).1.iterators().contains_key(id.raw)
                && found == stack[i].1.iterators()[id.raw],
{
    lemma_innermost(stack, defines_iter(id));
}

/// The stack of currently visible imports.
pub struct ImportStack {
    names: Vec<String>,
    modules: Vec<SharedModule>,
}

impl View for ImportStack {
    type V = Seq<ImportEntry>;

    /// The imports in the order in which they were pushed.
    closed spec fn view(&self) -> Seq<ImportEntry> {
        Seq::new(self.names@.len(), |i: int| (self.names@[i]@, self.modules@[i]))
    }
}

/// The text behind an optional borrowed name.
pub open spec fn opt_text(name: Option<&String>) -> Option<Seq<char>> {
    match name {
        Some(text) => Some(text@),
        None => None,
    }
}

/// What a borrowed listing of imports shows.
pub open spec fn listed(items: Seq<(&String, &SharedModule)>) -> Seq<ImportEntry> {
    Seq::new(items.len(), |i: int| (items[i].0@, *items[i].1))
}

impl ImportStack {
    /// Names and namespaces move in lockstep.
    #[verifier::type_invariant]
    spec fn lockstep(self) -> bool {
        self.names@.len() == self.modules@.len()
    }

    /// An empty stack.
    pub fn new() -> (stack: ImportStack)
        ensures
            stack@ == Seq::<ImportEntry>::empty(),
    {
        ImportStack { names: Vec::new(), modules: Vec::new() }
    }

    /// The number of imports.
    pub fn len(&self) -> (n: usize)
        ensures
            n == self@.len(),
    {
        proof {
            use_type_invariant(self);
        }
        self.modules.len()
    }

    /// The namespace at `index`, if there is one.
    pub fn get(&self, index: usize) -> (module: Option<SharedModule>)
        ensures
            module == (if index < self@.len() {
                Some(self@[index as int].1)
            } else {
                None
            }),
    {
        proof {
            use_type_invariant(self);
        }
        if index < self.modules.len() {
            Some(share(&self.modules[index]))
        } else {
            None
        }
    }

    /// The slot of the namespace at `index`, if there is one; what the
    /// caller leaves in the slot takes the place of the namespace.
    pub fn get_mut(&mut self, index: usize) -> (slot: Option<&mut SharedModule>)
        ensures
            match slot {
                Some(place) => {
                    &&& index < old(self)@.len()
                    &&& *place == old(self)@[index as int].1
                    &&& final(self)@ == old(self)@.update(
                        index as int,
                        (old(self)@[index as int].0, *final(place)),
                    )
                },
                None => index >= old(self)@.len() && final(self)@ == old(self)@,
            },
    {
        proof {
            use_type_invariant(&*self);
        }
        if index < self.modules.len() {
            Some(&mut self.modules[index])
        } else {
            None
        }
    }

    /// The index of the most recently pushed import under `name`.
    pub fn find(&self, name: &str) -> (index: Option<usize>)
        ensures
            match index {
                Some(i) => innermost(self@, named(name@)) == Some(i as int),
                None => innermost(self@, named(name@)) is None,
            },
    {
        proof {
            use_type_invariant(self);
        }
        let mut i: usize = self.names.len();
        while i > 0
            invariant
                i <= self.names@.len(),
                self.names@.len() == self@.len(),
                forall|j: int| 0 <= j < self@.len() ==> (#[trigger] self@[j]).0 == self.names@[j]@,
                forall|j: int| i <= j < self@.len() ==> !named(name@)(#[trigger] self@[j]),
            decreases i,
        {
            i -= 1;
            if str_eq(self.names[i].as_str(), name) {
                proof {
                    lemma_innermost_is(self@, named(name@), i as int);
                }
                return Some(i);
            }
        }
        proof {
            lemma_innermost_none(self@, named(name@));
        }
        None
    }

    /// Push an import; it shadows every earlier import of the same name.
    pub fn push(&mut self, name: String, module: SharedModule)
        ensures
            final(self)@ == old(self)@.push((name@, module)),
    {
        let mut taken = ImportStack::new();
        std::mem::swap(self, &mut taken);
        proof {
            use_type_invariant(&taken);
        }
        let ImportStack { mut names, mut modules } = taken;
        names.push(name);
        modules.push(module);
        *self = ImportStack { names, modules };
    }

    /// Cut the stack back to its first `size` imports; a stack that is not
    /// longer than `size` stays as it is.
    pub fn truncate(&mut self, size: usize)
        ensures
            final(self)@ == (if size <= old(self)@.len() {
                old(self)@.take(size as int)
            } else {
                old(self)@
            }),
            size <= old(self)@.len() ==> final(self)@.len() == size,
            forall|i: int|
                0 <= i < size && i < old(self)@.len() ==> #[trigger] final(self)@[i] == old(self)@[i],
    {
        let mut taken = ImportStack::new();
        std::mem::swap(self, &mut taken);
        proof {
            use_type_invariant(&taken);
        }
        let ImportStack { mut names, mut modules } = taken;
        names.truncate(size);
        modules.truncate(size);
        *self = ImportStack { names, modules };
    }

    /// The imports, most recently pushed first.
    pub fn iter_reverse(&self) -> (items: Vec<(&String, &SharedModule)>)
        ensures
            listed(items@) == self@.reverse(),
    {
        proof {
            use_type_invariant(self);
        }
        let mut items: Vec<(&String, &SharedModule)> = Vec::new();
        let mut i: usize = self.names.len();
        while i > 0
            invariant
                i <= self.names@.len(),
                self.names@.len() == self.modules@.len(),
                items@.len() == self.names@.len() - i,
                forall|k: int|
                    0 <= k < items@.len() ==> (#[trigger] items@[k]).0@ == self.names@[self.names@.len()
                        - 1 - k]@ && *items@[k].1 == self.modules@[self.names@.len() - 1 - k],
            decreases i,
        {
            i -= 1;
            items.push((&self.names[i], &self.modules[i]));
        }
        proof {
            assert(listed(items@) =~= self@.reverse());
        }
        items
    }

    /// The imports in the order in which they were pushed.
    pub fn iter_forward(&self) -> (items: Vec<(&String, &SharedModule)>)
        ensures
            listed(items@) == self@,
    {
        proof {
            use_type_invariant(self);
        }
        let mut items: Vec<(&String, &SharedModule)> = Vec::new();
        let mut i: usize = 0;
        while i < self.names.len()
            invariant
                i <= self.names@.len(),
                self.names@.len() == self.modules@.len(),
                items@.len() == i,
                forall|k: int|
                    0 <= k < i ==> (#[trigger] items@[k]).0@ == self.names@[k]@ && *items@[k].1
                        == self.modules@[k],
            decreases self.names@.len() - i,
        {
            items.push((&self.names[i], &self.modules[i]));
            i += 1;
        }
        proof {
            assert(listed(items@) =~= self@);
        }
        items
    }

    /// Can a function with dynamic parameters exist under this script hash
    /// in some imported namespace?
    pub fn may_contain_dynamic_fn(&self, hash_script: u64) -> (found: bool)
        ensures
            found == any(self@, may_define_dynamic_fn(hash_script)),
    {
        proof {
            use_type_invariant(self);
        }
        let mut i: usize = 0;
        while i < self.modules.len()
            invariant
                i <= self.modules@.len(),
                self.modules@.len() == self@.len(),
                forall|j: int| 0 <= j < self@.len() ==> (#[trigger] self@[j]).1 == self.modules@[j],
                forall|j: int| 0 <= j < i ==> !may_define_dynamic_fn(hash_script)(#[trigger] self@[j]),
            decreases self.modules@.len() - i,
        {
            if self.modules[i].may_contain_dynamic_fn(hash_script) {
                assert(may_define_dynamic_fn(hash_script)(self@[i as int]));
                return true;
            }
            i += 1;
        }
        false
    }

    /// Does some imported namespace hold a qualified function under this
    /// hash?
    pub fn contains_fn(&self, hash: u64) -> (found: bool)
        ensures
            found == any(self@, defines_fn(hash)),
            found == (resolve_fn(self@, hash) is Some),
    {
        proof {
            use_type_invariant(self);
        }
        let mut i: usize = 0;
        while i < self.modules.len()
            invariant
                i <= self.modules@.len(),
                self.modules@.len() == self@.len(),
                forall|j: int| 0 <= j < self@.len() ==> (#[trigger] self@[j]).1 == self.modules@[j],
                forall|j: int| 0 <= j < i ==> !defines_fn(hash)(#[trigger] self@[j]),
            decreases self.modules@.len() - i,
        {
            if self.modules[i].contains_qualified_fn(hash) {
                proof {
                    assert(defines_fn(hash)(self@[i as int]));
                    lemma_innermost(self@, defines_fn(hash));
                }
                return true;
            }
            i += 1;
        }
        proof {
            lemma_innermost(self@, defines_fn(hash));
        }
        false
    }

    /// The qualified function under this hash and the name of the namespace
    /// that owns it, from the innermost import that defines one.
    pub fn get_fn(&self, hash: u64) -> (found: Option<(&CallableFunction, Option<&String>)>)
        ensures
            match found {
                Some((func, owner)) => resolve_fn(self@, hash) == Some((*func, opt_text(owner))),
                None => resolve_fn(self@, hash) is None,
            },
    {
        proof {
            use_type_invariant(self);
        }
        let mut i: usize = self.modules.len();
        while i > 0
            invariant
                i <= self.modules@.len(),
                self.modules@.len() == self@.len(),
                forall|j: int| 0 <= j < self@.len() ==> (#[trigger] self@[j]).1 == self.modules@[j],
                forall|j: int| i <= j < self@.len() ==> !defines_fn(hash)(#[trigger] self@[j]),
            decreases i,
        {
            i -= 1;
            let module = &self.modules[i];
            match module.get_qualified_fn(hash) {
                Some(func) => {
                    proof {
                        lemma_innermost_is(self@, defines_fn(hash), i as int);
                    }
                    return Some((func, module.id_raw()));
                },
                None => {},
            }
        }
        proof {
            lemma_innermost_none(self@, defines_fn(hash));
        }
        None
    }

    /// Does some imported namespace hold an iterator constructor for this
    /// type?
    pub fn contains_iterator(&self, id: TypeTag) -> (found: bool)
        ensures
            found == any(self@, defines_iter(id)),
            found == (resolve_iter(self@, id) is Some),
    {
        proof {
            use_type_invariant(self);
        }
        let mut i: usize = 0;
        while i < self.modules.len()
            invariant
                i <= self.modules@.len(),
                self.modules@.len() == self@.len(),
                forall|j: int| 0 <= j < self@.len() ==> (#[trigger] self@[j]).1 == self.modules@[j],
                forall|j: int| 0 <= j < i ==> !defines_iter(id)(#[trigger] self@[j]),
            decreases self.modules@.len() - i,
        {
            if self.modules[i].contains_qualified_iter(id) {
                proof {
                    assert(defines_iter(id)(self@[i as int]));
                    lemma_innermost(self@, defines_iter(id));
                }
                return true;
            }
            i += 1;
        }
        proof {
            lemma_innermost(self@, defines_iter(id));
        }
        false
    }

    /// The iterator constructor for this type, from the innermost import
    /// that defines one.
    pub fn get_iterator(&self, id: TypeTag) -> (found: Option<&IteratorFn>)
        ensures
            match found {
                Some(func) => resolve_iter(self@, id) == Some(*func),
                None => resolve_iter(self@, id) is None,
            },
    {
        proof {
            use_type_invariant(self);
        }
        let mut i: usize = self.modules.len();
        while i > 0
            invariant
                i <= self.modules@.len(),
                self.modules@.len() == self@.len(),
                forall|j: int| 0 <= j < self@.len() ==> (#[trigger] self@[j]).1 == self.modules@[j],
                forall|j: int| i <= j < self@.len() ==> !defines_iter(id)(#[trigger] self@[j]),
            decreases i,
        {
            i -= 1;
            match self.modules[i].get_qualified_iter(id) {
                Some(func) => {
                    proof {
                        lemma_innermost_is(self@, defines_iter(id), i as int);
                    }
                    return Some(func);
                },
                None => {},
            }
        }
        proof {
            lemma_innermost_none(self@, defines_iter(id));
        }
        None
    }
}

impl Clone for ImportStack {
    /// A stack of its own with the same names and handles to the same
    /// namespaces.
    fn clone(&self) -> (copy: ImportStack)
        ensures
            copy@ == self@,
    {
        proof {
            use_type_invariant(self);
        }
        let mut names: Vec<String> = Vec::new();
        let mut modules: Vec<SharedModule> = Vec::new();
        let mut i: usize = 0;
        while i < self.names.len()
            invariant
                i <= self.names@.len(),
                self.names@.len() == self.modules@.len(),
                names@.len() == i,
                modules@.len() == i,
                forall|k: int| 0 <= k < i ==> (#[trigger] names@[k])@ == self.names@[k]@,
                forall|k: int| 0 <= k < i ==> #[trigger] modules@[k] == self.modules@[k],
            decreases self.names@.len() - i,
        {
            names.push(self.names[i].clone());
            modules.push(share(&self.modules[i]));
            i += 1;
        }
        let copy = ImportStack { names, modules };
        proof {
            assert(copy@ =~= self@);
        }
        copy
    }
}

} // verus!
