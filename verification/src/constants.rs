//! The cache of global constants.
//!
//! A table maps the name of a constant to its value and lists its entries in
//! the order of names. The cache is a handle to one such table behind a
//! lock: every state cloned from one run holds the same table, so a constant
//! declared through one of them is seen through all.

use crate::dynamic::Dynamic;
use crate::shared::share;
use crate::text::compare_names;
use crate::text::lemma_name_order;
use crate::text::name_before;
use crate::text::NameOrder;
use std::sync::Arc;
use vstd::prelude::*;
use vstd::rwlock::RwLock;
use vstd::rwlock::RwLockPredicate;

verus! {

/// One constant as the contracts see it: its name and its value.
pub type ConstantEntry = (Seq<char>, Dynamic);

/// Whether the entries stand in the strict order of their names.
pub open spec fn ascending(entries: Seq<ConstantEntry>) -> bool {
    forall|i: int, j: int|
        0 <= i < j < entries.len() ==> name_before(
            (#[trigger] entries[i]).0,
            (#[trigger] entries[j]).0,
        )
}

/// Whether some entry has the name `name`.
pub open spec fn has_entry(entries: Seq<ConstantEntry>, name: Seq<char>) -> bool {
    exists|i: int| 0 <= i < entries.len() && (#[trigger] entries[i]).0 == name
}

/// The index of an entry with the name `name`.
pub open spec fn entry_index(entries: Seq<ConstantEntry>, name: Seq<char>) -> int {
    choose|i: int| 0 <= i < entries.len() && (#[trigger] entries[i]).0 == name
}

/// The mapping that a listing of entries stands for.
pub open spec fn table_of(entries: Seq<ConstantEntry>) -> Map<Seq<char>, Dynamic> {
    Map::new(
        |name: Seq<char>| has_entry(entries, name),
        |name: Seq<char>| entries[entry_index(entries, name)].1,
    )
}

/// In an ascending listing every entry is the one that its name maps to.
pub proof fn lemma_table_of_entry(entries: Seq<ConstantEntry>, i: int)
    requires
        ascending(entries),
        0 <= i < entries.len(),
    ensures
        table_of(entries).contains_key(entries[i].0),
        table_of(entries)[entries[i].0] == entries[i].1,
        entry_index(entries, entries[i].0) == i,
{
    let name = entries[i].0;
    let k = entry_index(entries, name);
    lemma_name_order(name, name, name);
    if k < i {
        assert(name_before(entries[k].0, entries[i].0));
    } else if i < k {
        assert(name_before(entries[i].0, entries[k].0));
    }
}

/// A table of named constants, listed in the order of the names.
pub struct ConstantsMap {
    names: Vec<String>,
    values: Vec<Dynamic>,
}

impl View for ConstantsMap {
    type V = Map<Seq<char>, Dynamic>;

    /// The value of each constant, by name.
    open spec fn view(&self) -> Map<Seq<char>, Dynamic> {
        table_of(self.entries())
    }
}

/// What an owned listing of constants shows.
pub open spec fn snapshot_entries(items: Seq<(String, Dynamic)>) -> Seq<ConstantEntry> {
    Seq::new(items.len(), |i: int| (items[i].0@, items[i].1))
}

/// What a borrowed listing of constants shows.
pub open spec fn listed_constants(items: Seq<(&String, &Dynamic)>) -> Seq<ConstantEntry> {
    Seq::new(items.len(), |i: int| (items[i].0@, *items[i].1))
}

impl ConstantsMap {
    /// Names and values move in lockstep, and the names ascend strictly.
    #[verifier::type_invariant]
    spec fn well_formed(self) -> bool {
        &&& self.names@.len() == self.values@.len()
        &&& ascending(self.entries())
    }

    /// The constants in the order of their names.
    pub closed spec fn entries(&self) -> Seq<ConstantEntry> {
        Seq::new(self.names@.len(), |i: int| (self.names@[i]@, self.values@[i]))
    }

    /// A table without constants.
    pub fn new() -> (table: ConstantsMap)
        ensures
            table@ == Map::<Seq<char>, Dynamic>::empty(),
            table.entries() == Seq::<ConstantEntry>::empty(),
    {
        let table = ConstantsMap { names: Vec::new(), values: Vec::new() };
        proof {
            assert(table@ =~= Map::<Seq<char>, Dynamic>::empty());
            assert(table.entries() =~= Seq::<ConstantEntry>::empty());
        }
        table
    }

    /// The number of constants.
    pub fn len(&self) -> (n: usize)
        ensures
            n == self.entries().len(),
    {
        self.names.len()
    }

    /// Where `name` stands in the listing: the index of the first entry that
    /// does not come before it, and whether that entry has this very name.
    fn position(&self, name: &str) -> (place: (usize, bool))
        ensures
            place.0 <= self.entries().len(),
            forall|k: int| 0 <= k < place.0 ==> name_before((#[trigger] self.entries()[k]).0, name@),
            forall|k: int|
                place.0 <= k < self.entries().len() ==> !name_before(
                    (#[trigger] self.entries()[k]).0,
                    name@,
                ),
            place.1 <==> place.0 < self.entries().len() && self.entries()[place.0 as int].0
                == name@,
            place.1 <==> self@.contains_key(name@),
    {
        proof {
            use_type_invariant(self);
        }
        let ghost entries = self.entries();
        let mut low: usize = 0;
        let mut high: usize = self.names.len();
        while low < high
            invariant
                low <= high <= self.names@.len(),
                entries == self.entries(),
                entries.len() == self.names@.len(),
                ascending(entries),
                forall|k: int| 0 <= k < entries.len() ==> (#[trigger] entries[k]).0 == self.names@[k]@,
                forall|k: int| 0 <= k < low ==> name_before((#[trigger] entries[k]).0, name@),
                forall|k: int|
                    high <= k < entries.len() ==> !name_before((#[trigger] entries[k]).0, name@),
            decreases high - low,
        {
            let mid: usize = low + (high - low) / 2;
            match compare_names(self.names[mid].as_str(), name) {
                NameOrder::Before => {
                    proof {
                        assert forall|k: int| 0 <= k < mid + 1 implies name_before(
                            (#[trigger] entries[k]).0,
                            name@,
                        ) by {
                            if k < mid {
                                assert(name_before(entries[k].0, entries[mid as int].0));
                                lemma_name_order(entries[k].0, entries[mid as int].0, name@);
                            }
                        }
                    }
                    low = mid + 1;
                },
                _ => {
                    proof {
                        assert forall|k: int| mid <= k < entries.len() implies !name_before(
                            (#[trigger] entries[k]).0,
                            name@,
                        ) by {
                            lemma_name_order(entries[k].0, name@, entries[mid as int].0);
                            lemma_name_order(entries[mid as int].0, entries[k].0, name@);
                            if mid < k {
                                assert(name_before(entries[mid as int].0, entries[k].0));
                            }
                        }
                    }
                    high = mid;
                },
            }
        }
        let found = low < self.names.len() && match compare_names(self.names[low].as_str(), name) {
            NameOrder::Same => true,
            _ => false,
        };
        proof {
            if found {
                lemma_table_of_entry(entries, low as int);
            } else if has_entry(entries, name@) {
                let k = entry_index(entries, name@);
                lemma_name_order(name@, name@, name@);
                if k < low {
                    assert(name_before(entries[k].0, name@));
                } else {
                    assert(low < k);
                    assert(name_before(entries[low as int].0, entries[k].0));
                    lemma_name_order(entries[low as int].0, name@, name@);
                }
            }
        }
        (low, found)
    }

    /// The value of the constant `name`, if the table holds one.
    pub fn get(&self, name: &str) -> (value: Option<&Dynamic>)
        ensures
            value == (if self@.contains_key(name@) {
                Some(&self@[name@])
            } else {
                None
            }),
    {
        proof {
            use_type_invariant(self);
        }
        let (index, found) = self.position(name);
        if found {
            proof {
                lemma_table_of_entry(self.entries(), index as int);
            }
            Some(&self.values[index])
        } else {
            None
        }
    }

    /// Set the constant `name` to `value` and hand back the value that it
    /// had before, if any.
    pub fn insert(&mut self, name: String, value: Dynamic) -> (before: Option<Dynamic>)
        ensures
            final(self)@ == old(self)@.insert(name@, value),
            before == (if old(self)@.contains_key(name@) {
                Some(old(self)@[name@])
            } else {
                None
            }),
    {
        let (index, found) = self.position(name.as_str());
        let mut taken = ConstantsMap::new();
        std::mem::swap(self, &mut taken);
        proof {
            use_type_invariant(&taken);
        }
        let ghost prior = taken.entries();
        let ConstantsMap { mut names, mut values } = taken;
        let before = if found {
            proof {
                lemma_table_of_entry(prior, index as int);
            }
            let mut slot = value;
            std::mem::swap(&mut values[index], &mut slot);
            Some(slot)
        } else {
            names.insert(index, name);
            values.insert(index, value);
            None
        };
        let ghost next = Seq::new(names@.len(), |i: int| (names@[i]@, values@[i]));
        proof {
            if found {
                assert(next =~= prior.update(index as int, (name@, value)));
                assert forall|key: Seq<char>| has_entry(next, key) == has_entry(prior, key) by {
                    if has_entry(next, key) {
                        assert(prior[entry_index(next, key)].0 == key);
                    }
                    if has_entry(prior, key) {
                        assert(next[entry_index(prior, key)].0 == key);
                    }
                }
            } else {
                assert(next =~= prior.insert(index as int, (name@, value)));
                assert forall|i: int, j: int| 0 <= i < j < next.len() implies name_before(
                    (#[trigger] next[i]).0,
                    (#[trigger] next[j]).0,
                ) by {
                    let a = if i < index { i } else { i - 1 };
                    let b = if j < index { j } else { j - 1 };
                    if i == index {
                        lemma_name_order(name@, prior[b].0, name@);
                        assert(!name_before(prior[b].0, name@));
                        assert(prior[b].0 != name@) by {
                            if prior[b].0 == name@ {
                                assert(has_entry(prior, name@));
                            }
                        }
                    } else if j == index {
                        assert(name_before(prior[a].0, name@));
                    } else {
                        assert(name_before(prior[a].0, prior[b].0));
                    }
                }
                assert(next[index as int].0 == name@);
                assert forall|key: Seq<char>| has_entry(next, key) == (key == name@ || has_entry(
                    prior,
                    key,
                )) by {
                    if has_entry(next, key) && key != name@ {
                        let k = entry_index(next, key);
                        let a = if k < index { k } else { k - 1 };
                        assert(prior[a].0 == key);
                    }
                    if has_entry(prior, key) {
                        let a = entry_index(prior, key);
                        let k = if a < index { a } else { a + 1 };
                        assert(next[k].0 == key);
                    }
                }
            }
            assert(ascending(next));
            assert forall|key: Seq<char>| has_entry(next, key) implies table_of(next)[key]
                == table_of(prior).insert(name@, value)[key] by {
                let k = entry_index(next, key);
                lemma_table_of_entry(next, k);
                if key != name@ {
                    let a = if found || k < index { k } else { k - 1 };
                    assert(prior[a] == next[k]);
                    lemma_table_of_entry(prior, a);
                } else {
                    lemma_table_of_entry(next, index as int);
                }
            }
            assert(table_of(next) =~= table_of(prior).insert(name@, value));
        }
        *self = ConstantsMap { names, values };
        before
    }

    /// The constants in the order of their names.
    pub fn list(&self) -> (items: Vec<(&String, &Dynamic)>)
        ensures
            listed_constants(items@) == self.entries(),
            ascending(self.entries()),
    {
        proof {
            use_type_invariant(self);
        }
        let mut items: Vec<(&String, &Dynamic)> = Vec::new();
        let mut i: usize = 0;
        while i < self.names.len()
            invariant
                i <= self.names@.len(),
                self.names@.len() == self.values@.len(),
                items@.len() == i,
                forall|k: int|
                    0 <= k < i ==> (#[trigger] items@[k]).0@ == self.names@[k]@ && *items@[k].1
                        == self.values@[k],
            decreases self.names@.len() - i,
        {
            items.push((&self.names[i], &self.values[i]));
            i += 1;
        }
        proof {
            assert(listed_constants(items@) =~= self.entries());
        }
        items
    }

    /// A copy of the value of the constant `name`, if the table holds one.
    pub fn value_of(&self, name: &str) -> (value: Option<Dynamic>)
        ensures
            value == (if self@.contains_key(name@) {
                Some(self@[name@])
            } else {
                None
            }),
    {
        match self.get(name) {
            Some(held) => Some(held.clone()),
            None => None,
        }
    }

    /// Copies of the constants in the order of their names.
    pub fn to_vec(&self) -> (items: Vec<(String, Dynamic)>)
        ensures
            snapshot_entries(items@) == self.entries(),
            ascending(self.entries()),
    {
        let listing = self.list();
        let mut items: Vec<(String, Dynamic)> = Vec::new();
        let mut i: usize = 0;
        while i < listing.len()
            invariant
                i <= listing@.len(),
                items@.len() == i,
                forall|k: int|
                    0 <= k < i ==> (#[trigger] items@[k]).0@ == listing@[k].0@ && items@[k].1
                        == *listing@[k].1,
            decreases listing@.len() - i,
        {
            items.push((listing[i].0.clone(), listing[i].1.clone()));
            i += 1;
        }
        proof {
            assert(snapshot_entries(items@) =~= listed_constants(listing@));
        }
        items
    }
}

/// What the lock of a cache admits: every table.
pub struct AnyTable;

impl RwLockPredicate<ConstantsMap> for AnyTable {
    open spec fn inv(self, table: ConstantsMap) -> bool {
        true
    }
}

/// A handle to a table of constants that every holder of the handle reads
/// and writes under one lock.
///
/// What a call finds in the table depends on what the holders of the handle
/// have stored before it. Each call takes the lock, hands the table that it
/// finds to one function of [`ConstantsMap`], whose contract says what is
/// done with that table, and gives the lock back.
pub struct GlobalConstants {
    table: Arc<RwLock<ConstantsMap, AnyTable>>,
}

impl GlobalConstants {
    /// A handle to a new table.
    pub fn new() -> GlobalConstants {
        GlobalConstants { table: Arc::new(RwLock::new(ConstantsMap::new(), Ghost(AnyTable))) }
    }

    /// A copy of the value that the table holds for `name` while the lock is
    /// held, if any: what [`ConstantsMap::value_of`] gives for that table.
    pub fn get(&self, name: &str) -> Option<Dynamic> {
        let guard = self.table.acquire_read();
        let value = guard.borrow().value_of(name);
        guard.release_read();
        value
    }

    /// Set the constant `name` to `value` under the lock, and hand back the
    /// value that it had before, if any: what [`ConstantsMap::insert`] does
    /// to the table that is held.
    pub fn insert(&self, name: String, value: Dynamic) -> Option<Dynamic> {
        let (mut table, guard) = self.table.acquire_write();
        let before = table.insert(name, value);
        guard.release_write(table);
        before
    }

    /// Copies of the constants that the table holds while the lock is held,
    /// in the order of their names: what [`ConstantsMap::to_vec`] gives for
    /// that table.
    pub fn snapshot(&self) -> (items: Vec<(String, Dynamic)>)
        ensures
            ascending(snapshot_entries(items@)),
    {
        let guard = self.table.acquire_read();
        let items = guard.borrow().to_vec();
        guard.release_read();
        items
    }
}

impl Clone for GlobalConstants {
    /// Another handle to the same table.
    fn clone(&self) -> (other: GlobalConstants)
        ensures
            other == *self,
    {
        GlobalConstants { table: share(&self.table) }
    }
}

} // verus!
