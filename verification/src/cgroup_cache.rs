//! Cgroup paths by inode number, filled by walking the cgroup filesystem
//! when an inode is not known yet.
use vstd::prelude::*;
use std::collections::HashMap;

verus! {

broadcast use vstd::std_specs::hash::group_hash_axioms;

/// Walks a directory tree.
pub trait CgroupWalker {
    /// The inode number and path of every entry under `root` that could be
    /// read, in walk order.
    fn walk(&mut self, root: &str) -> Vec<(u64, String)>;
}

/// The cache after recording `entries` in order; a later entry for the same
/// inode replaces an earlier one.
pub open spec fn record_all(m: Map<u64, Seq<char>>, entries: Seq<(u64, String)>) -> Map<u64, Seq<char>>
    decreases entries.len(),
{
    if entries.len() == 0 {
        m
    } else {
        record_all(m, entries.drop_last()).insert(entries.last().0, entries.last().1@)
    }
}

/// Cgroup paths by inode number.
pub struct CgroupCache {
    root: String,
    cache: HashMap<u64, String>,
}

/// A walker of type `W` was asked to walk the directory `root` and answered
/// `entries`.
pub open spec fn walked<W: CgroupWalker>(root: Seq<char>, entries: Vec<(u64, String)>) -> bool {
    exists|w: &mut W, r: &str| r@ == root && call_ensures(W::walk, (w, r), entries)
}

impl CgroupCache {
    /// The known paths.
    pub closed spec fn paths(&self) -> Map<u64, Seq<char>> {
        Map::new(|ino: u64| self.cache@.contains_key(ino), |ino: u64| self.cache@[ino]@)
    }

    /// The directory that is walked.
    pub closed spec fn root(&self) -> Seq<char> {
        self.root@
    }


    /// An empty cache over `root`.
    pub fn new(root: String) -> (r: Self)
        ensures
            r.root() == root@,
            r.paths() == Map::<u64, Seq<char>>::empty(),
    {
        let r = CgroupCache { root, cache: HashMap::new() };
        proof {
            assert(r.paths() =~= Map::<u64, Seq<char>>::empty());
        }
        r
    }

    /// The known path of `ino`, without walking.
    pub fn lookup(&self, ino: u64) -> (r: Option<String>)
        ensures
            self.paths().contains_key(ino) ==> (r matches Some(p) && p@ == self.paths()[ino]),
            !self.paths().contains_key(ino) ==> r is None,
    {
        match self.cache.get(&ino) {
            Some(p) => Some(String::from_str(p.as_str())),
            None => None,
        }
    }

    /// Records walked entries in order.
    pub fn record(&mut self, entries: Vec<(u64, String)>)
        ensures
            final(self).paths() == record_all(old(self).paths(), entries@),
            final(self).root() == old(self).root(),
    {
        let ghost start = self.paths();
        let mut i: usize = 0;
        while i < entries.len()
            invariant
                i <= entries.len(),
                self.paths() == record_all(start, entries@.take(i as int)),
                self.root@ == old(self).root@,
            decreases entries.len() - i,
        {
            let ghost done = entries@.take(i as int);
            let ino = entries[i].0;
            let path = String::from_str(entries[i].1.as_str());
            let _ = self.cache.insert(ino, path);
            proof {
                let next = entries@.take(i + 1);
                assert(next.drop_last() =~= done);
                assert(self.paths() =~= record_all(start, done).insert(next.last().0, next.last().1@));
            }
            i = i + 1;
        }
        proof {
            assert(entries@.take(entries@.len() as int) =~= entries@);
        }
    }

    /// The path of `ino`: from the cache if known, otherwise after walking
    /// the cgroup filesystem and recording what was found.
    pub fn get<W: CgroupWalker>(&mut self, walker: &mut W, ino: u64) -> (r: Option<String>)
        ensures
            final(self).root() == old(self).root(),
            old(self).paths().contains_key(ino) ==> final(self).paths() == old(self).paths()
                && (r matches Some(p) && p@ == old(self).paths()[ino]),
            !old(self).paths().contains_key(ino) ==> exists|entries: Vec<(u64, String)>|
                #[trigger] walked::<W>(old(self).root(), entries) && final(self).paths() == record_all(
                    old(self).paths(),
                    entries@,
                ),
            final(self).paths().contains_key(ino) ==> (r matches Some(p) && p@ == final(self).paths()[ino]),
            !final(self).paths().contains_key(ino) ==> r is None,
    {
        if let Some(p) = self.lookup(ino) {
            return Some(p);
        }
        let entries = walker.walk(self.root.as_str());
        let ghost answer = entries;
        proof {
            assert(walked::<W>(self.root@, answer));
        }
        self.record(entries);
        self.lookup(ino)
    }
}

} // verus!
