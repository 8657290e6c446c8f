//! A small table keyed by component name.
//!
//! Components (camera, display, touch, ...) are identified by their name.
//! `NameTable` keeps one value per name, in insertion order, and is modelled
//! by a finite map from the name's characters to the value.
use vstd::prelude::*;

verus! {

/// The map that a sequence of distinct names and a sequence of values
/// of the same length describe.
pub open spec fn table_map<V>(names: Seq<Seq<char>>, values: Seq<V>) -> Map<Seq<char>, V> {
    Map::new(
        |k: Seq<char>| names.contains(k),
        |k: Seq<char>| values[names.index_of(k)],
    )
}

/// Every name occurs at most once.
pub open spec fn distinct_names(names: Seq<Seq<char>>) -> bool {
    forall|i: int, j: int| 0 <= i < names.len() && 0 <= j < names.len() && i != j ==> names[i] != names[j]
}

/// In a sequence of distinct names, the position of an occurring name is the
/// only position that holds it.
pub proof fn lemma_index_of_distinct(names: Seq<Seq<char>>, i: int)
    requires
        distinct_names(names),
        0 <= i < names.len(),
    ensures
        names.contains(names[i]),
        names.index_of(names[i]) == i,
{
    assert(names.contains(names[i]));
    let j = names.index_of(names[i]);
    assert(0 <= j < names.len() && names[j] == names[i]);
}

/// A table that maps component names to values.
#[derive(Debug)]
pub struct NameTable<V> {
    names: Vec<String>,
    values: Vec<V>,
}

impl<V: Copy> NameTable<V> {
    /// The names, in the order in which they were first set.
    pub closed spec fn name_seq(&self) -> Seq<Seq<char>> {
        self.names@.map_values(|s: String| s@)
    }

    /// The values, position by position with `name_seq`.
    pub closed spec fn value_seq(&self) -> Seq<V> {
        self.values@
    }

    /// Well-formedness: one value per name and no name twice.
    pub closed spec fn wf(&self) -> bool {
        &&& self.names@.len() == self.values@.len()
        &&& distinct_names(self.name_seq())
    }

    /// The table as a map from names to values.
    pub open spec fn view(&self) -> Map<Seq<char>, V> {
        table_map(self.name_seq(), self.value_seq())
    }

    /// The entries of a well-formed table are those of its map, and only those.
    pub proof fn lemma_entries(&self)
        requires
            self.wf(),
        ensures
            self.name_seq().len() == self.value_seq().len(),
            distinct_names(self.name_seq()),
            forall|i: int|
                0 <= i < self.name_seq().len() ==> #[trigger] self@.dom().contains(self.name_seq()[i])
                    && self@[self.name_seq()[i]] == self.value_seq()[i],
            forall|k: Seq<char>|
                #[trigger] self@.dom().contains(k) ==> exists|i: int|
                    0 <= i < self.name_seq().len() && self.name_seq()[i] == k,
            self@.dom().finite(),
            self@.dom().len() == self.name_seq().len(),
    {
        assert forall|i: int| 0 <= i < self.name_seq().len() implies #[trigger] self@.dom().contains(
            self.name_seq()[i],
        ) && self@[self.name_seq()[i]] == self.value_seq()[i] by {
            lemma_index_of_distinct(self.name_seq(), i);
        }
        assert forall|k: Seq<char>| #[trigger] self@.dom().contains(k) implies exists|i: int|
            0 <= i < self.name_seq().len() && self.name_seq()[i] == k by {
            let i = self.name_seq().index_of(k);
            assert(self.name_seq()[i] == k);
        }
        self.name_seq().unique_seq_to_set();
        assert(self@.dom() =~= self.name_seq().to_set());
    }

    /// An empty table.
    pub fn new() -> (t: Self)
        ensures
            t.wf(),
            t@ == Map::<Seq<char>, V>::empty(),
    {
        let t = NameTable { names: Vec::new(), values: Vec::new() };
        assert(t.name_seq() =~= Seq::<Seq<char>>::empty());
        assert(t@ =~= Map::<Seq<char>, V>::empty());
        t
    }

    /// Number of names in the table.
    pub fn len(&self) -> (n: usize)
        requires
            self.wf(),
        ensures
            n == self@.dom().len(),
    {
        proof {
            self.lemma_entries();
        }
        self.names.len()
    }

    /// Position of `name` in the table, if present.
    fn find(&self, name: &String) -> (r: Option<usize>)
        requires
            self.wf(),
        ensures
            match r {
                Some(i) => i < self.name_seq().len() && self.name_seq()[i as int] == name@,
                None => !self.name_seq().contains(name@),
            },
    {
        let n = self.names.len();
        let mut i: usize = 0;
        while i < n
            invariant
                n == self.names@.len(),
                i <= n,
                self.name_seq().len() == n,
                forall|j: int| 0 <= j < i ==> self.name_seq()[j] != name@,
            decreases n - i,
        {
            if self.names[i] == *name {
                return Some(i);
            }
            i = i + 1;
        }
        proof {
            if self.name_seq().contains(name@) {
                let j = self.name_seq().index_of(name@);
                assert(self.name_seq()[j] == name@);
            }
        }
        None
    }

    /// The value stored under `name`.
    pub fn get(&self, name: &str) -> (r: Option<V>)
        requires
            self.wf(),
        ensures
            r == (if self@.dom().contains(name@) {
                Some(self@[name@])
            } else {
                None
            }),
    {
        let key = name.to_owned();
        match self.find(&key) {
            Some(i) => {
                proof {
                    lemma_index_of_distinct(self.name_seq(), i as int);
                }
                Some(self.values[i])
            },
            None => None,
        }
    }

    /// Store `value` under `name`, replacing any earlier value.
    pub fn set(&mut self, name: &str, value: V)
        requires
            old(self).wf(),
        ensures
            final(self).wf(),
            final(self)@ == old(self)@.insert(name@, value),
    {
        let key = name.to_owned();
        match self.find(&key) {
            Some(i) => {
                let ghost old_names = self.name_seq();
                self.values.set(i, value);
                proof {
                    assert(self.name_seq() =~= old_names);
                    lemma_index_of_distinct(old_names, i as int);
                    assert forall|k: Seq<char>| #[trigger] self@.dom().contains(k) implies self@[k]
                        == old(self)@.insert(name@, value)[k] by {
                        if k != name@ {
                            let j = old_names.index_of(k);
                            assert(old_names[j] == k);
                            assert(j != i);
                        }
                    }
                    assert(self@ =~= old(self)@.insert(name@, value));
                }
            },
            None => {
                let ghost old_names = self.name_seq();
                let ghost old_values = self.value_seq();
                self.names.push(key);
                self.values.push(value);
                proof {
                    let ns = self.name_seq();
                    assert(ns =~= old_names.push(name@));
                    assert(distinct_names(ns));
                    lemma_index_of_distinct(ns, old_names.len() as int);
                    assert forall|k: Seq<char>| #[trigger] old(self)@.insert(name@, value).dom().contains(k)
                        implies self@.dom().contains(k) && self@[k] == old(self)@.insert(name@, value)[k] by {
                        if k != name@ {
                            let j = old_names.index_of(k);
                            assert(old_names[j] == k);
                            assert(ns[j] == k);
                            lemma_index_of_distinct(ns, j);
                            lemma_index_of_distinct(old_names, j);
                        }
                    }
                    assert forall|k: Seq<char>| #[trigger] self@.dom().contains(k) implies old(self)@.insert(
                        name@,
                        value,
                    ).dom().contains(k) by {
                        let j = ns.index_of(k);
                        assert(ns[j] == k);
                        if j < old_names.len() {
                            assert(old_names[j] == k);
                        }
                    }
                    assert(self@ =~= old(self)@.insert(name@, value));
                }
            },
        }
    }

    /// Remove `name` from the table; answers whether it was present.
    pub fn remove(&mut self, name: &str) -> (was_present: bool)
        requires
            old(self).wf(),
        ensures
            final(self).wf(),
            final(self)@ == old(self)@.remove(name@),
            was_present == old(self)@.dom().contains(name@),
    {
        let key = name.to_owned();
        match self.find(&key) {
            Some(i) => {
                let ghost old_names = self.name_seq();
                let ghost old_values = self.value_seq();
                proof {
                    lemma_index_of_distinct(old_names, i as int);
                }
                self.names.remove(i);
                self.values.remove(i);
                proof {
                    let ns = self.name_seq();
                    assert(ns =~= old_names.remove(i as int));
                    assert(self.value_seq() =~= old_values.remove(i as int));
                    assert(distinct_names(ns)) by {
                        assert forall|a: int, b: int|
                            0 <= a < ns.len() && 0 <= b < ns.len() && a != b implies ns[a] != ns[b] by {
                            let a0 = if a < i { a } else { a + 1 };
                            let b0 = if b < i { b } else { b + 1 };
                            assert(ns[a] == old_names[a0]);
                            assert(ns[b] == old_names[b0]);
                        }
                    }
                    assert forall|k: Seq<char>| #[trigger] self@.dom().contains(k) implies old(
                        self,
                    )@.remove(name@).dom().contains(k) && self@[k] == old(self)@.remove(name@)[k] by {
                        let j = ns.index_of(k);
                        assert(ns[j] == k);
                        lemma_index_of_distinct(ns, j);
                        let j0 = if j < i { j } else { j + 1 };
                        assert(old_names[j0] == k);
                        lemma_index_of_distinct(old_names, j0);
                    }
                    assert forall|k: Seq<char>| #[trigger] old(self)@.remove(name@).dom().contains(k)
                        implies self@.dom().contains(k) by {
                        let j0 = old_names.index_of(k);
                        assert(old_names[j0] == k);
                        assert(j0 != i);
                        let j = if j0 < i { j0 } else { j0 - 1 };
                        assert(ns[j] == k);
                    }
                    assert(self@ =~= old(self)@.remove(name@));
                }
                true
            },
            None => {
                proof {
                    assert(self@ =~= old(self)@.remove(name@));
                }
                false
            },
        }
    }

    /// Remove every entry.
    pub fn clear(&mut self)
        ensures
            final(self).wf(),
            final(self)@ == Map::<Seq<char>, V>::empty(),
    {
        self.names.clear();
        self.values.clear();
        proof {
            assert(self.name_seq() =~= Seq::<Seq<char>>::empty());
            assert(self@ =~= Map::<Seq<char>, V>::empty());
        }
    }

    /// A table with the same entries.
    pub fn copy(&self) -> (t: Self)
        requires
            self.wf(),
        ensures
            t.wf(),
            t@ == self@,
            t.name_seq() == self.name_seq(),
    {
        let mut names: Vec<String> = Vec::new();
        let mut values: Vec<V> = Vec::new();
        let mut i: usize = 0;
        while i < self.names.len()
            invariant
                self.wf(),
                i <= self.names@.len(),
                names@.len() == i,
                values@.len() == i,
                forall|j: int| 0 <= j < i ==> (#[trigger] names@[j])@ == self.names@[j]@,
                forall|j: int| 0 <= j < i ==> #[trigger] values@[j] == self.values@[j],
            decreases self.names@.len() - i,
        {
            names.push(self.names[i].clone());
            values.push(self.values[i]);
            i = i + 1;
        }
        let t = NameTable { names, values };
        assert(t.name_seq() =~= self.name_seq());
        assert(t.value_seq() =~= self.value_seq());
        t
    }

    /// The value at position `i` of the table.
    pub fn value_at(&self, i: usize) -> (v: V)
        requires
            self.wf(),
            i < self.value_seq().len(),
        ensures
            v == self.value_seq()[i as int],
    {
        self.values[i]
    }

    /// The name at position `i` of the table.
    pub fn name_at(&self, i: usize) -> (s: &String)
        requires
            self.wf(),
            i < self.name_seq().len(),
        ensures
            s@ == self.name_seq()[i as int],
    {
        &self.names[i]
    }
}

} // verus!
