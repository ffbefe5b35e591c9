//! A table of values looked up by name, with at most one value per name.

use vstd::prelude::*;

use crate::text::str_eq;

verus! {

/// The map that a sequence of named entries describes: later entries win.
pub open spec fn entries_map<V>(entries: Seq<(String, V)>) -> Map<Seq<char>, V>
    decreases entries.len(),
{
    if entries.len() == 0 {
        Map::empty()
    } else {
        entries_map(entries.drop_last()).insert(entries.last().0@, entries.last().1)
    }
}

/// Whether no name occurs twice among the entries.
pub open spec fn unique_names<V>(entries: Seq<(String, V)>) -> bool {
    forall|i: int, j: int|
        0 <= i < entries.len() && 0 <= j < entries.len() && i != j ==> #[trigger] entries[i].0@
            != #[trigger] entries[j].0@
}

/// With unique names, the map holds exactly the entries' names, each with
/// its entry's value.
proof fn lemma_entries_map<V>(entries: Seq<(String, V)>)
    requires
        unique_names(entries),
    ensures
        entries_map(entries).dom().finite(),
        entries_map(entries).dom().len() == entries.len(),
        forall|k: Seq<char>|
            #[trigger] entries_map(entries).contains_key(k) <==> exists|i: int|
                0 <= i < entries.len() && entries[i].0@ == k,
        forall|i: int|
            0 <= i < entries.len() ==> #[trigger] entries_map(entries)[entries[i].0@]
                == entries[i].1,
    decreases entries.len(),
{
    if entries.len() > 0 {
        let init = entries.drop_last();
        assert(unique_names(init)) by {
            assert forall|i: int, j: int|
                0 <= i < init.len() && 0 <= j < init.len() && i != j implies #[trigger] init[i].0@
                != #[trigger] init[j].0@ by {
                assert(init[i] == entries[i]);
                assert(init[j] == entries[j]);
            }
        }
        lemma_entries_map(init);
        let n = entries.len() - 1;
        assert(!entries_map(init).contains_key(entries[n].0@)) by {
            if entries_map(init).contains_key(entries[n].0@) {
                let i = choose|i: int| 0 <= i < init.len() && init[i].0@ == entries[n].0@;
                assert(entries[i].0@ == entries[n].0@);
            }
        }
        assert forall|k: Seq<char>|
            #[trigger] entries_map(entries).contains_key(k) <==> exists|i: int|
                0 <= i < entries.len() && entries[i].0@ == k by {
            if exists|i: int| 0 <= i < entries.len() && entries[i].0@ == k {
                let i = choose|i: int| 0 <= i < entries.len() && entries[i].0@ == k;
                if i < n {
                    assert(init[i].0@ == k);
                }
            }
            if entries_map(init).contains_key(k) {
                let i = choose|i: int| 0 <= i < init.len() && init[i].0@ == k;
                assert(entries[i].0@ == k);
            }
        }
        assert forall|i: int| 0 <= i < entries.len() implies #[trigger] entries_map(
            entries,
        )[entries[i].0@] == entries[i].1 by {
            if i < n {
                assert(init[i] == entries[i]);
                assert(entries[i].0@ != entries[n].0@);
            }
        }
    }
}

/// Values looked up by name.
pub struct NamedTable<V> {
    entries: Vec<(String, V)>,
}

impl<V> View for NamedTable<V> {
    type V = Map<Seq<char>, V>;

    /// The names and their values.
    closed spec fn view(&self) -> Map<Seq<char>, V> {
        entries_map(self.entries@)
    }
}

impl<V> NamedTable<V> {
    #[verifier::type_invariant]
    spec fn names_unique(&self) -> bool {
        unique_names(self.entries@)
    }

    /// An empty table.
    pub fn new() -> (r: Self)
        ensures
            r@ == Map::<Seq<char>, V>::empty(),
    {
        NamedTable { entries: Vec::new() }
    }

    /// The position of the entry named `name`, if any.
    fn find(&self, name: &str) -> (r: Option<usize>)
        ensures
            match r {
                Some(i) => i < self.entries@.len() && self.entries@[i as int].0@ == name@,
                None => forall|i: int|
                    0 <= i < self.entries@.len() ==> self.entries@[i].0@ != name@,
            },
    {
        let mut i: usize = 0;
        while i < self.entries.len()
            invariant
                i <= self.entries@.len(),
                forall|j: int| 0 <= j < i ==> self.entries@[j].0@ != name@,
            decreases self.entries@.len() - i,
        {
            if str_eq(self.entries[i].0.as_str(), name) {
                return Some(i);
            }
            i = i + 1;
        }
        None
    }

    /// Sets the value of `name`, and gives back the value it replaced.
    pub fn insert(&mut self, name: &str, value: V) -> (r: Option<V>)
        ensures
            final(self)@ == old(self)@.insert(name@, value),
            r == (if old(self)@.contains_key(name@) {
                Some(old(self)@[name@])
            } else {
                None::<V>
            }),
    {
        proof {
            use_type_invariant(&*self);
            lemma_entries_map(self.entries@);
        }
        match self.find(name) {
            Some(i) => {
                let ghost before = self.entries@;
                let key = String::from_str(name);
                let mut entries = Vec::new();
                std::mem::swap(&mut entries, &mut self.entries);
                let old_entry = entries.remove(i);
                entries.insert(i, (key, value));
                proof {
                    assert(entries@ =~= before.update(i as int, entries@[i as int]));
                    assert(unique_names(entries@)) by {
                        assert forall|a: int, b: int|
                            0 <= a < entries@.len() && 0 <= b < entries@.len() && a != b implies #[trigger] entries@[a].0@
                            != #[trigger] entries@[b].0@ by {
                            if a != i && b != i {
                                assert(before[a].0@ != before[b].0@);
                            } else if a == i {
                                assert(before[i as int].0@ != before[b].0@);
                            } else {
                                assert(before[a].0@ != before[i as int].0@);
                            }
                        }
                    }
                    lemma_entries_map(entries@);
                    assert(entries_map(entries@) =~= entries_map(before).insert(name@, value)) by {
                        assert forall|k: Seq<char>|
                            #[trigger] entries_map(entries@).contains_key(k) implies entries_map(
                                before,
                            ).insert(name@, value).contains_key(k) by {
                            let j = choose|j: int| 0 <= j < entries@.len() && entries@[j].0@ == k;
                            if j != i {
                                assert(before[j].0@ == k);
                            }
                        }
                        assert forall|k: Seq<char>|
                            #[trigger] entries_map(before).insert(name@, value).contains_key(k) implies entries_map(
                                entries@,
                            ).contains_key(k) by {
                            if k != name@ {
                                let j = choose|j: int| 0 <= j < before.len() && before[j].0@ == k;
                                assert(entries@[j].0@ == k);
                            } else {
                                assert(entries@[i as int].0@ == k);
                            }
                        }
                        assert forall|k: Seq<char>|
                            #[trigger] entries_map(entries@).contains_key(k) implies entries_map(
                                entries@,
                            )[k] == entries_map(before).insert(name@, value)[k] by {
                            let j = choose|j: int| 0 <= j < entries@.len() && entries@[j].0@ == k;
                            if j != i {
                                assert(before[j] == entries@[j]);
                            }
                        }
                    }
                }
                self.entries = entries;
                Some(old_entry.1)
            },
            None => {
                let ghost before = self.entries@;
                let key = String::from_str(name);
                let mut entries = Vec::new();
                std::mem::swap(&mut entries, &mut self.entries);
                entries.push((key, value));
                proof {
                    assert(entries@.drop_last() =~= before);
                    assert(unique_names(entries@)) by {
                        assert forall|a: int, b: int|
                            0 <= a < entries@.len() && 0 <= b < entries@.len() && a != b implies #[trigger] entries@[a].0@
                            != #[trigger] entries@[b].0@ by {
                            if a < before.len() && b < before.len() {
                                assert(before[a].0@ != before[b].0@);
                            } else if a < before.len() {
                                assert(before[a].0@ != name@);
                            } else {
                                assert(before[b].0@ != name@);
                            }
                        }
                    }
                }
                self.entries = entries;
                None
            },
        }
    }

    /// The number of names.
    pub fn len(&self) -> (r: usize)
        ensures
            r == self@.len(),
    {
        proof {
            use_type_invariant(self);
            lemma_entries_map(self.entries@);
        }
        self.entries.len()
    }

    /// Whether the table holds no name.
    pub fn is_empty(&self) -> (r: bool)
        ensures
            r == (self@.len() == 0),
    {
        self.len() == 0
    }

    /// The value of `name`, if the table holds it.
    pub fn get(&self, name: &str) -> (r: Option<&V>)
        ensures
            r is Some <==> self@.contains_key(name@),
            r matches Some(v) ==> *v == self@[name@],
    {
        proof {
            use_type_invariant(self);
            lemma_entries_map(self.entries@);
        }
        match self.find(name) {
            Some(i) => Some(&self.entries[i].1),
            None => None,
        }
    }
}

} // verus!
