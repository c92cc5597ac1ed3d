//! Tables keyed by cell name: cgroups, child processes, and cells with
//! their executables.
use vstd::prelude::*;
use crate::names::{CellName, ExecutableName};
use crate::table::{NameTable, TableError};

verus! {

/// Cgroups keyed by cell name.
pub struct CgroupTable<G> {
    cache: NameTable<G>,
}

impl<G> View for CgroupTable<G> {
    type V = Map<Seq<char>, G>;

    closed spec fn view(&self) -> Map<Seq<char>, G> {
        self.cache@
    }
}

impl<G: Clone> CgroupTable<G> {
    /// The table is well formed.
    pub closed spec fn wf(&self) -> bool {
        self.cache.wf()
    }

    /// An empty table.
    pub fn new() -> (r: Self)
        ensures
            r.wf(),
            r@ == Map::<Seq<char>, G>::empty(),
    {
        CgroupTable { cache: NameTable::new() }
    }

    /// Whether the table is empty.
    pub fn is_empty(&self) -> (r: bool)
        requires
            self.wf(),
        ensures
            r == (self@ == Map::<Seq<char>, G>::empty()),
    {
        self.cache.is_empty()
    }

    /// Whether a cgroup is stored for `cell_name`.
    pub fn contains(&self, cell_name: &str) -> (r: bool)
        requires
            self.wf(),
        ensures
            r == self@.contains_key(cell_name@),
    {
        self.cache.contains(cell_name)
    }

    /// Stores the cgroup of a cell; a cell that already has one is refused
    /// and the table left as it was.
    pub fn insert(&mut self, cell_name: String, cgroup: G) -> (r: Result<(), TableError>)
        requires
            old(self).wf(),
        ensures
            final(self).wf(),
            old(self)@.contains_key(cell_name@) ==> r is Err && final(self)@ == old(self)@,
            !old(self)@.contains_key(cell_name@) ==> r is Ok && final(self)@ == old(self)@.insert(cell_name@, cgroup),
    {
        self.cache.insert(cell_name, cgroup)
    }

    /// A copy of the cgroup of a cell, if it has one; the table keeps it.
    pub fn get(&self, cell_name: &str) -> (r: Option<G>)
        requires
            self.wf(),
        ensures
            r is Some <==> self@.contains_key(cell_name@),
            r matches Some(g) ==> cloned(self@[cell_name@], g),
    {
        match self.cache.get(cell_name) {
            Some(g) => Some(g.clone()),
            None => None,
        }
    }

    /// Takes out the cgroup of a cell; a cell without one is an error.
    pub fn remove(&mut self, cell_name: &str) -> (r: Result<G, TableError>)
        requires
            old(self).wf(),
        ensures
            final(self).wf(),
            old(self)@.contains_key(cell_name@) ==> (r matches Ok(g) && g == old(self)@[cell_name@]
                && final(self)@ == old(self)@.remove(cell_name@)),
            !old(self)@.contains_key(cell_name@) ==> r is Err && final(self)@ == old(self)@,
    {
        self.cache.remove(cell_name)
    }
}

/// Child processes keyed by cell name.
pub struct ChildTable<C> {
    cache: NameTable<C>,
}

impl<C> View for ChildTable<C> {
    type V = Map<Seq<char>, C>;

    closed spec fn view(&self) -> Map<Seq<char>, C> {
        self.cache@
    }
}

impl<C> ChildTable<C> {
    /// The table is well formed.
    pub closed spec fn wf(&self) -> bool {
        self.cache.wf()
    }

    /// An empty table.
    pub fn new() -> (r: Self)
        ensures
            r.wf(),
            r@ == Map::<Seq<char>, C>::empty(),
    {
        ChildTable { cache: NameTable::new() }
    }

    /// Whether the table is empty.
    pub fn is_empty(&self) -> (r: bool)
        requires
            self.wf(),
        ensures
            r == (self@ == Map::<Seq<char>, C>::empty()),
    {
        self.cache.is_empty()
    }

    /// Whether a child is stored for `cell_name`.
    pub fn contains(&self, cell_name: &str) -> (r: bool)
        requires
            self.wf(),
        ensures
            r == self@.contains_key(cell_name@),
    {
        self.cache.contains(cell_name)
    }

    /// Stores the child process of a cell; a cell that already has one is
    /// refused and the table left as it was.
    pub fn insert(&mut self, cell_name: CellName, child: C) -> (r: Result<(), TableError>)
        requires
            old(self).wf(),
        ensures
            final(self).wf(),
            old(self)@.contains_key(cell_name@) ==> r is Err && final(self)@ == old(self)@,
            !old(self)@.contains_key(cell_name@) ==> r is Ok && final(self)@ == old(self)@.insert(cell_name@, child),
    {
        self.cache.insert(cell_name.into_inner(), child)
    }

    /// Takes out the child process of a cell; a cell without one is an error.
    pub fn remove(&mut self, cell_name: &CellName) -> (r: Result<C, TableError>)
        requires
            old(self).wf(),
        ensures
            final(self).wf(),
            old(self)@.contains_key(cell_name@) ==> (r matches Ok(c) && c == old(self)@[cell_name@]
                && final(self)@ == old(self)@.remove(cell_name@)),
            !old(self)@.contains_key(cell_name@) ==> r is Err && final(self)@ == old(self)@,
    {
        self.cache.remove(cell_name.as_str())
    }
}

/// A cell of the table: its cgroup and its executables' child processes.
pub struct CellEntry<G, C> {
    cgroup: G,
    executables: NameTable<C>,
}

/// Cells keyed by name, each with its cgroup and its executables.
pub struct CellTable<G, C> {
    cells: NameTable<CellEntry<G, C>>,
}

impl<G, C> View for CellTable<G, C> {
    type V = Map<Seq<char>, (G, Map<Seq<char>, C>)>;

    closed spec fn view(&self) -> Map<Seq<char>, (G, Map<Seq<char>, C>)> {
        Map::new(|k: Seq<char>| self.cells@.contains_key(k), |k: Seq<char>| (self.cells@[k].cgroup, self.cells@[k].executables@))
    }
}

impl<G: Clone, C> CellTable<G, C> {
    /// The table and each cell's executables are well formed.
    pub closed spec fn wf(&self) -> bool {
        &&& self.cells.wf()
        &&& forall|k: Seq<char>| #[trigger] self.cells@.contains_key(k) ==> self.cells@[k].executables.wf()
    }

    /// An empty table.
    pub fn new() -> (r: Self)
        ensures
            r.wf(),
            r@ == Map::<Seq<char>, (G, Map<Seq<char>, C>)>::empty(),
    {
        let r = CellTable { cells: NameTable::new() };
        proof {
            assert(r@ =~= Map::<Seq<char>, (G, Map<Seq<char>, C>)>::empty());
        }
        r
    }

    /// Adds a cell with its cgroup and no executables; a name already in
    /// use is refused and the table left as it was.
    pub fn add_cgroup(&mut self, cell_name: CellName, cgroup: G) -> (r: Result<(), TableError>)
        requires
            old(self).wf(),
        ensures
            final(self).wf(),
            old(self)@.contains_key(cell_name@) ==> r is Err && final(self)@ == old(self)@,
            !old(self)@.contains_key(cell_name@) ==> r is Ok && final(self)@ == old(self)@.insert(
                cell_name@,
                (cgroup, Map::empty()),
            ),
    {
        let entry = CellEntry { cgroup, executables: NameTable::new() };
        let r = self.cells.insert(cell_name.into_inner(), entry);
        proof {
            assert(final(self)@ =~= if old(self)@.contains_key(cell_name@) { old(self)@ } else {
                old(self)@.insert(cell_name@, (cgroup, Map::empty()))
            });
        }
        r
    }

    /// A copy of the cgroup of a cell, if the cell is in the table.
    pub fn get_cgroup(&self, cell_name: &CellName) -> (r: Option<G>)
        requires
            self.wf(),
        ensures
            r is Some <==> self@.contains_key(cell_name@),
            r matches Some(g) ==> cloned(self@[cell_name@].0, g),
    {
        match self.cells.get(cell_name.as_str()) {
            Some(e) => Some(e.cgroup.clone()),
            None => None,
        }
    }

    /// Takes a cell out of the table and gives its cgroup; a missing cell
    /// is an error.
    pub fn rm_cgroup(&mut self, cell_name: &CellName) -> (r: Result<G, TableError>)
        requires
            old(self).wf(),
        ensures
            final(self).wf(),
            old(self)@.contains_key(cell_name@) ==> (r matches Ok(g) && g == old(self)@[cell_name@].0
                && final(self)@ == old(self)@.remove(cell_name@)),
            !old(self)@.contains_key(cell_name@) ==> r is Err && final(self)@ == old(self)@,
    {
        let r = match self.cells.remove(cell_name.as_str()) {
            Ok(e) => Ok(e.cgroup),
            Err(e) => Err(e),
        };
        proof {
            assert(final(self)@ =~= if old(self)@.contains_key(cell_name@) { old(self)@.remove(cell_name@) } else {
                old(self)@
            });
        }
        r
    }

    /// Records the child process of an executable of a cell, replacing any
    /// earlier one of that name; a missing cell is an error.
    pub fn add_child(&mut self, cell_name: &CellName, exe_name: ExecutableName, child: C) -> (r: Result<(), TableError>)
        requires
            old(self).wf(),
        ensures
            final(self).wf(),
            !old(self)@.contains_key(cell_name@) ==> r is Err && final(self)@ == old(self)@,
            old(self)@.contains_key(cell_name@) ==> r is Ok && final(self)@ == old(self)@.insert(
                cell_name@,
                (old(self)@[cell_name@].0, old(self)@[cell_name@].1.insert(exe_name@, child)),
            ),
    {
        let mut entry = match self.cells.remove(cell_name.as_str()) {
            Ok(e) => e,
            Err(e) => {
                return Err(e);
            },
        };
        let ghost before = entry.executables@;
        let key = exe_name.into_inner();
        let lookup = String::from_str(key.as_str());
        let _ = entry.executables.remove(lookup.as_str());
        let _ = entry.executables.insert(key, child);
        proof {
            assert(entry.executables@ =~= before.insert(lookup@, child));
        }
        let _ = self.cells.insert(String::from_str(cell_name.as_str()), entry);
        proof {
            assert(final(self)@ =~= old(self)@.insert(
                cell_name@,
                (old(self)@[cell_name@].0, old(self)@[cell_name@].1.insert(exe_name@, child)),
            ));
        }
        Ok(())
    }

    /// Whether the cell holds a child process for the executable; a missing
    /// cell is an error.
    pub fn has_child(&self, cell_name: &CellName, exe_name: &ExecutableName) -> (r: Result<bool, TableError>)
        requires
            self.wf(),
        ensures
            !self@.contains_key(cell_name@) ==> r is Err,
            self@.contains_key(cell_name@) ==> r == Ok::<bool, TableError>(self@[cell_name@].1.contains_key(exe_name@)),
    {
        match self.cells.get(cell_name.as_str()) {
            Some(e) => Ok(e.executables.contains(exe_name.as_str())),
            None => Err(TableError::NotFound { name: String::from_str(cell_name.as_str()) }),
        }
    }

    /// Takes out the child process of an executable of a cell; a missing
    /// cell or executable is an error.
    pub fn rm_child(&mut self, cell_name: &CellName, exe_name: &ExecutableName) -> (r: Result<C, TableError>)
        requires
            old(self).wf(),
        ensures
            final(self).wf(),
            !old(self)@.contains_key(cell_name@) ==> r is Err && final(self)@ == old(self)@,
            old(self)@.contains_key(cell_name@) && !old(self)@[cell_name@].1.contains_key(exe_name@) ==> r is Err
                && final(self)@ == old(self)@,
            old(self)@.contains_key(cell_name@) && old(self)@[cell_name@].1.contains_key(exe_name@) ==> (r matches Ok(c)
                && c == old(self)@[cell_name@].1[exe_name@] && final(self)@ == old(self)@.insert(
                cell_name@,
                (old(self)@[cell_name@].0, old(self)@[cell_name@].1.remove(exe_name@)),
            )),
    {
        let mut entry = match self.cells.remove(cell_name.as_str()) {
            Ok(e) => e,
            Err(e) => {
                return Err(e);
            },
        };
        let r = entry.executables.remove(exe_name.as_str());
        let _ = self.cells.insert(String::from_str(cell_name.as_str()), entry);
        proof {
            if r is Err {
                assert(final(self)@ =~= old(self)@);
            } else {
                assert(final(self)@ =~= old(self)@.insert(
                    cell_name@,
                    (old(self)@[cell_name@].0, old(self)@[cell_name@].1.remove(exe_name@)),
                ));
            }
        }
        r
    }
}

} // verus!
