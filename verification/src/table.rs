//! An in-memory table of values keyed by name: the store behind the cgroup,
//! child-process and cell tables.
use vstd::prelude::*;
use crate::text::str_eq;

verus! {

/// Why a table operation was refused.
#[derive(Debug, Clone)]
pub enum TableError {
    /// A value is already stored under this name.
    AlreadyExists { name: String },
    /// No value is stored under this name.
    NotFound { name: String },
}

/// Values keyed by name; each name occurs at most once.
pub struct NameTable<V> {
    entries: Vec<(String, V)>,
    contents: Ghost<Map<Seq<char>, V>>,
}

impl<V> View for NameTable<V> {
    type V = Map<Seq<char>, V>;

    closed spec fn view(&self) -> Map<Seq<char>, V> {
        self.contents@
    }
}

impl<V> NameTable<V> {
    /// The entries hold distinct names and agree with the contents.
    pub closed spec fn wf(&self) -> bool {
        &&& forall|i: int, j: int|
            0 <= i < j < self.entries@.len() ==> (#[trigger] self.entries@[i]).0@ != (
            #[trigger] self.entries@[j]).0@
        &&& forall|i: int|
            0 <= i < self.entries@.len() ==> self.contents@.contains_key(
                (#[trigger] self.entries@[i]).0@,
            ) && self.contents@[self.entries@[i].0@] == self.entries@[i].1
        &&& forall|k: Seq<char>|
            #[trigger] self.contents@.contains_key(k) ==> exists|i: int|
                0 <= i < self.entries@.len() && (#[trigger] self.entries@[i]).0@ == k
    }

    /// An empty table.
    pub fn new() -> (r: Self)
        ensures
            r@ == Map::<Seq<char>, V>::empty(),
            r.wf(),
    {
        NameTable { entries: Vec::new(), contents: Ghost(Map::empty()) }
    }

    fn find(&self, name: &str) -> (r: Option<usize>)
        requires
            self.wf(),
        ensures
            r matches Some(i) ==> i < self.entries@.len() && self.entries@[i as int].0@ == name@,
            r is None ==> !self@.contains_key(name@),
    {
        let mut i: usize = 0;
        while i < self.entries.len()
            invariant
                i <= self.entries@.len(),
                forall|k: int| 0 <= k < i ==> (#[trigger] self.entries@[k]).0@ != name@,
            decreases self.entries.len() - i,
        {
            if str_eq(self.entries[i].0.as_str(), name) {
                return Some(i);
            }
            i = i + 1;
        }
        None
    }

    /// Whether a value is stored under `name`.
    pub fn contains(&self, name: &str) -> (r: bool)
        requires
            self.wf(),
        ensures
            r == self@.contains_key(name@),
    {
        match self.find(name) {
            Some(_) => true,
            None => false,
        }
    }

    /// The value stored under `name`, if any.
    pub fn get(&self, name: &str) -> (r: Option<&V>)
        requires
            self.wf(),
        ensures
            self@.contains_key(name@) ==> r == Some(&self@[name@]),
            !self@.contains_key(name@) ==> r is None,
    {
        match self.find(name) {
            Some(i) => Some(&self.entries[i].1),
            None => None,
        }
    }

    /// Whether `f` holds of some stored value: when it answers `true`, some
    /// value made `f` answer `true`; when `false`, every value made it
    /// answer `false`.
    pub fn any<F: Fn(&V) -> bool>(&self, f: F) -> (r: bool)
        requires
            self.wf(),
            forall|v: &V| f.requires((v,)),
        ensures
            r ==> exists|k: Seq<char>| self@.contains_key(k) && call_ensures(f, (&self@[k],), true),
            !r ==> forall|k: Seq<char>| self@.contains_key(k) ==> call_ensures(f, (&self@[k],), false),
    {
        let mut i: usize = 0;
        while i < self.entries.len()
            invariant
                self.wf(),
                i <= self.entries@.len(),
                forall|v: &V| f.requires((v,)),
                forall|j: int| 0 <= j < i ==> call_ensures(f, (&(#[trigger] self.entries@[j]).1,), false),
            decreases self.entries.len() - i,
        {
            let b = f(&self.entries[i].1);
            if b {
                proof {
                    assert(self@.contains_key(self.entries@[i as int].0@));
                }
                return true;
            }
            i = i + 1;
        }
        proof {
            assert forall|k: Seq<char>| self@.contains_key(k) implies call_ensures(f, (&self@[k],), false) by {
                let j = choose|j: int| 0 <= j < self.entries@.len() && (#[trigger] self.entries@[j]).0@ == k;
                assert(self@[k] == self.entries@[j].1);
            }
        }
        false
    }

    /// Whether the table is empty.
    pub fn is_empty(&self) -> (r: bool)
        requires
            self.wf(),
        ensures
            r == (self@ == Map::<Seq<char>, V>::empty()),
    {
        if self.entries.len() == 0 {
            proof {
                assert(self@ =~= Map::<Seq<char>, V>::empty());
            }
            true
        } else {
            proof {
                assert(self@.contains_key(self.entries@[0].0@));
            }
            false
        }
    }

    /// Stores `value` under `name`. A name that is already present is
    /// refused and the table is left as it was.
    pub fn insert(&mut self, name: String, value: V) -> (r: Result<(), TableError>)
        requires
            old(self).wf(),
        ensures
            final(self).wf(),
            old(self)@.contains_key(name@) ==> (r matches Err(TableError::AlreadyExists { name: n })
                && n@ == name@ && final(self)@ == old(self)@),
            !old(self)@.contains_key(name@) ==> r is Ok && final(self)@ == old(self)@.insert(name@, value),
    {
        if self.find(name.as_str()).is_some() {
            return Err(TableError::AlreadyExists { name });
        }
        let ghost key = name@;
        let ghost old_entries = self.entries@;
        let ghost new_contents = self.contents@.insert(key, value);
        self.entries.push((name, value));
        self.contents = Ghost(new_contents);
        proof {
            assert forall|k: Seq<char>| #[trigger] self.contents@.contains_key(k) implies exists|i: int|
                0 <= i < self.entries@.len() && (#[trigger] self.entries@[i]).0@ == k by {
                if k == key {
                    assert(self.entries@[old_entries.len() as int].0@ == k);
                } else {
                    assert(old(self).contents@.contains_key(k));
                    let i = choose|i: int| 0 <= i < old_entries.len() && (#[trigger] old_entries[i]).0@ == k;
                    assert(self.entries@[i] == old_entries[i]);
                }
            }
        }
        Ok(())
    }

    /// Takes out the value stored under `name`. A missing name is refused
    /// and the table is left as it was.
    pub fn remove(&mut self, name: &str) -> (r: Result<V, TableError>)
        requires
            old(self).wf(),
        ensures
            final(self).wf(),
            old(self)@.contains_key(name@) ==> (r matches Ok(v) && v == old(self)@[name@]
                && final(self)@ == old(self)@.remove(name@)),
            !old(self)@.contains_key(name@) ==> (r matches Err(TableError::NotFound { name: n })
                && n@ == name@ && final(self)@ == old(self)@),
    {
        match self.find(name) {
            None => Err(TableError::NotFound { name: String::from_str(name) }),
            Some(i) => {
                let ghost old_entries = self.entries@;
                let ghost key = name@;
                let ghost new_contents = self.contents@.remove(key);
                let entry = self.entries.remove(i);
                self.contents = Ghost(new_contents);
                proof {
                    assert forall|j: int| 0 <= j < self.entries@.len() implies self.contents@.contains_key(
                        (#[trigger] self.entries@[j]).0@,
                    ) && self.contents@[self.entries@[j].0@] == self.entries@[j].1 by {
                        if j < i {
                            assert(self.entries@[j] == old_entries[j]);
                        } else {
                            assert(self.entries@[j] == old_entries[j + 1]);
                        }
                    }
                    assert forall|k: Seq<char>| #[trigger] self.contents@.contains_key(k) implies exists|j: int|
                        0 <= j < self.entries@.len() && (#[trigger] self.entries@[j]).0@ == k by {
                        let j = choose|j: int| 0 <= j < old_entries.len() && (#[trigger] old_entries[j]).0@ == k;
                        if j < i {
                            assert(self.entries@[j] == old_entries[j]);
                        } else {
                            assert(j != i);
                            assert(self.entries@[j - 1] == old_entries[j]);
                        }
                    }
                }
                Ok(entry.1)
            },
        }
    }
}

} // verus!

verus! {

/// Storing a value under a new name and taking it out again gives back the
/// value and leaves the table as it was before.
pub proof fn law_remove_undoes_insert<V>(t: Map<Seq<char>, V>, name: Seq<char>, value: V)
    requires
        !t.contains_key(name),
    ensures
        t.insert(name, value).contains_key(name),
        t.insert(name, value)[name] == value,
        t.insert(name, value).remove(name) == t,
{
    assert(t.insert(name, value).remove(name) =~= t);
}

/// A value stored under a name is found under that name, and storing it
/// leaves every other name as it was.
pub proof fn law_read_after_insert<V>(t: Map<Seq<char>, V>, name: Seq<char>, value: V, other: Seq<char>)
    requires
        other != name,
    ensures
        t.insert(name, value)[name] == value,
        t.insert(name, value).contains_key(other) == t.contains_key(other),
        t.contains_key(other) ==> t.insert(name, value)[other] == t[other],
{
}

} // verus!
