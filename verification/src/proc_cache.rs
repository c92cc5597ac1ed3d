//! The process cache: namespace pids of host processes, kept for a while
//! after the processes exit so that late events can still be mapped.
use vstd::prelude::*;
use std::collections::HashMap;
use std::collections::VecDeque;

verus! {

broadcast use vstd::std_specs::hash::group_hash_axioms;

/// Looks up process information.
pub trait ProcessInfo {
    /// The pid of `pid` in its innermost pid namespace, if it can be read.
    fn get_nspid(&self, pid: i32) -> Option<i32>;
}

/// A process whose cache entry is dropped once `evict_at` has passed.
/// Times are nanoseconds since the Unix epoch.
#[derive(Debug, Clone, Copy, PartialEq, Eq)]
pub struct Eviction {
    pub pid: i32,
    pub evict_at: u64,
}

/// Namespace pids by host pid, with a queue of pending evictions.
pub struct ProcCache {
    cache: HashMap<i32, i32>,
    evict_after: u64,
    evict_every: u64,
    eviction_queue: VecDeque<Eviction>,
    last_eviction: u64,
}

/// Whether a lookup at `now` evicts, given the time of the last eviction
/// and the interval.
pub open spec fn eviction_due(last: u64, every: u64, now: u64) -> bool {
    last + every <= now
}

/// Whether the evictions of `q` fall due in queue order, as they do when
/// exits are recorded in time order.
pub open spec fn queue_in_time_order(q: Seq<Eviction>) -> bool {
    forall|i: int, j: int| 0 <= i <= j < q.len() ==> (#[trigger] q[i]).evict_at <= (#[trigger] q[j]).evict_at
}

/// The pids of a sequence of evictions.
pub open spec fn evicted_pids(q: Seq<Eviction>) -> Set<i32> {
    q.map_values(|e: Eviction| e.pid).to_set()
}

impl ProcCache {
    /// The cached namespace pids.
    pub closed spec fn entries(&self) -> Map<i32, i32> {
        self.cache@
    }

    /// The pending evictions, oldest first.
    pub closed spec fn queue(&self) -> Seq<Eviction> {
        self.eviction_queue@
    }

    /// How long an exited process stays cached.
    pub closed spec fn spec_evict_after(&self) -> u64 {
        self.evict_after
    }

    /// How often expired entries are dropped.
    pub closed spec fn spec_evict_every(&self) -> u64 {
        self.evict_every
    }

    /// When entries were last dropped: the start of the epoch until the
    /// first eviction, then the time of the latest one.
    pub closed spec fn spec_last_eviction(&self) -> u64 {
        self.last_eviction
    }

    /// An empty cache.
    pub fn new(evict_after: u64, evict_every: u64) -> (r: Self)
        ensures
            r.entries() == Map::<i32, i32>::empty(),
            r.queue() == Seq::<Eviction>::empty(),
            r.spec_evict_after() == evict_after,
            r.spec_evict_every() == evict_every,
            r.spec_last_eviction() == 0,
    {
        ProcCache {
            cache: HashMap::new(),
            evict_after,
            evict_every,
            eviction_queue: VecDeque::new(),
            last_eviction: 0,
        }
    }

    /// Records the namespace pid of a new process, when one was found.
    pub fn record_fork(&mut self, child_pid: i32, nspid: Option<i32>)
        ensures
            nspid matches Some(n) ==> final(self).entries() == old(self).entries().insert(child_pid, n),
            nspid is None ==> final(self).entries() == old(self).entries(),
            final(self).queue() == old(self).queue(),
            final(self).spec_evict_after() == old(self).spec_evict_after(),
            final(self).spec_evict_every() == old(self).spec_evict_every(),
            final(self).spec_last_eviction() == old(self).spec_last_eviction(),
    {
        if let Some(n) = nspid {
            let _ = self.cache.insert(child_pid, n);
        }
    }

    /// Handles a fork event: looks up the child's namespace pid and records
    /// it if found.
    pub fn on_process_fork<I: ProcessInfo>(&mut self, info: &I, child_pid: i32)
        ensures
            exists|a: Option<i32>| #[trigger] call_ensures(I::get_nspid, (info, child_pid), a) && (a matches Some(n)
                ==> final(self).entries() == old(self).entries().insert(child_pid, n)) && (a is None
                ==> final(self).entries() == old(self).entries()),
            final(self).queue() == old(self).queue(),
            final(self).spec_evict_after() == old(self).spec_evict_after(),
            final(self).spec_evict_every() == old(self).spec_evict_every(),
            final(self).spec_last_eviction() == old(self).spec_last_eviction(),
    {
        let nspid = info.get_nspid(child_pid);
        proof {
            assert(call_ensures(I::get_nspid, (info, child_pid), nspid));
        }
        self.record_fork(child_pid, nspid);
    }

    /// Handles an exit event at time `now`: the process is queued for
    /// eviction `evict_after` later.
    pub fn on_process_exit(&mut self, pid: i32, now: u64)
        requires
            now + old(self).spec_evict_after() <= u64::MAX,
        ensures
            final(self).queue() == old(self).queue().push(Eviction { pid, evict_at: (now + old(self).spec_evict_after()) as u64 }),
            queue_in_time_order(old(self).queue()) && (old(self).queue().len() == 0 || old(self).queue().last().evict_at
                <= now + old(self).spec_evict_after()) ==> queue_in_time_order(final(self).queue()),
            final(self).entries() == old(self).entries(),
            final(self).spec_evict_after() == old(self).spec_evict_after(),
            final(self).spec_evict_every() == old(self).spec_evict_every(),
            final(self).spec_last_eviction() == old(self).spec_last_eviction(),
    {
        let evict_at = now + self.evict_after;
        self.eviction_queue.push_back(Eviction { pid, evict_at });
        proof {
            let q = self.eviction_queue@;
            if queue_in_time_order(old(self).queue()) && (old(self).queue().len() == 0
                || old(self).queue().last().evict_at <= now + old(self).spec_evict_after()) {
                assert forall|i: int, j: int| 0 <= i <= j < q.len() implies (#[trigger] q[i]).evict_at <= (
                #[trigger] q[j]).evict_at by {
                    if j == q.len() - 1 && i < j {
                        assert(old(self).queue()[i].evict_at <= old(self).queue().last().evict_at);
                    }
                }
            }
        }
    }

    /// Drops every queued eviction at the front of the queue whose time
    /// has come, and the cache entries of those processes.
    pub fn evict_expired(&mut self, now: u64)
        ensures
            final(self).queue().len() <= old(self).queue().len(),
            ({
                let k = old(self).queue().len() - final(self).queue().len();
                &&& final(self).queue() == old(self).queue().skip(k)
                &&& forall|i: int| 0 <= i < k ==> (#[trigger] old(self).queue()[i]).evict_at <= now
                &&& final(self).entries() == old(self).entries().remove_keys(evicted_pids(old(self).queue().take(k)))
            }),
            final(self).queue().len() == 0 || final(self).queue()[0].evict_at > now,
            queue_in_time_order(old(self).queue()) ==> queue_in_time_order(final(self).queue()) && forall|i: int|
                0 <= i < final(self).queue().len() ==> (#[trigger] final(self).queue()[i]).evict_at > now,
            final(self).spec_evict_after() == old(self).spec_evict_after(),
            final(self).spec_evict_every() == old(self).spec_evict_every(),
            final(self).spec_last_eviction() == old(self).spec_last_eviction(),
    {
        let ghost q0 = self.eviction_queue@;
        let ghost c0 = self.cache@;
        let mut evict: Vec<Eviction> = Vec::new();
        loop
            invariant
                q0.len() == evict@.len() + self.eviction_queue@.len(),
                self.eviction_queue@ == q0.skip(evict@.len() as int),
                evict@ == q0.take(evict@.len() as int),
                forall|i: int| 0 <= i < evict@.len() ==> (#[trigger] evict@[i]).evict_at <= now,
                self.cache@ == c0,
                self.evict_after == old(self).evict_after,
                self.evict_every == old(self).evict_every,
                self.last_eviction == old(self).last_eviction,
            ensures
                self.eviction_queue@.len() == 0 || self.eviction_queue@[0].evict_at > now,
                q0.len() == evict@.len() + self.eviction_queue@.len(),
                self.eviction_queue@ == q0.skip(evict@.len() as int),
                evict@ == q0.take(evict@.len() as int),
                forall|i: int| 0 <= i < evict@.len() ==> (#[trigger] evict@[i]).evict_at <= now,
                self.cache@ == c0,
                self.evict_after == old(self).evict_after,
                self.evict_every == old(self).evict_every,
                self.last_eviction == old(self).last_eviction,
            decreases self.eviction_queue@.len(),
        {
            let due = self.eviction_queue.len() > 0 && self.eviction_queue[0].evict_at <= now;
            if !due {
                break;
            }
            let ghost before = evict@;
            match self.eviction_queue.pop_front() {
                Some(v) => {
                    evict.push(v);
                    proof {
                        assert(evict@ =~= q0.take(evict@.len() as int));
                        assert(self.eviction_queue@ =~= q0.skip(evict@.len() as int));
                    }
                },
                None => {
                    break;
                },
            }
        }
        let mut i: usize = 0;
        while i < evict.len()
            invariant
                i <= evict@.len(),
                self.cache@ == c0.remove_keys(evicted_pids(evict@.take(i as int))),
                self.eviction_queue@.len() == 0 || self.eviction_queue@[0].evict_at > now,
                q0.len() == evict@.len() + self.eviction_queue@.len(),
                self.eviction_queue@ == q0.skip(evict@.len() as int),
                evict@ == q0.take(evict@.len() as int),
                forall|j: int| 0 <= j < evict@.len() ==> (#[trigger] evict@[j]).evict_at <= now,
                self.evict_after == old(self).evict_after,
                self.evict_every == old(self).evict_every,
                self.last_eviction == old(self).last_eviction,
            decreases evict.len() - i,
        {
            let pid = evict[i].pid;
            let _ = self.cache.remove(&pid);
            proof {
                let s0 = evict@.take(i as int);
                let s1 = evict@.take(i + 1);
                assert(s1 =~= s0.push(evict@[i as int]));
                assert(s1.map_values(|e: Eviction| e.pid) =~= s0.map_values(|e: Eviction| e.pid).push(pid));
                s0.map_values(|e: Eviction| e.pid).lemma_push_to_set_commute(pid);
                assert(evicted_pids(s1) =~= evicted_pids(s0).insert(pid));
                assert(c0.remove_keys(evicted_pids(s1)) =~= c0.remove_keys(evicted_pids(s0)).remove(pid));
            }
            i = i + 1;
        }
        proof {
            assert(evict@.take(evict@.len() as int) =~= evict@);
            let k = evict@.len() as int;
            assert forall|i: int| 0 <= i < k implies (#[trigger] q0[i]).evict_at <= now by {
                assert(evict@[i] == q0.take(k)[i]);
            }
            if queue_in_time_order(q0) {
                let q1 = self.eviction_queue@;
                assert forall|i: int, j: int| 0 <= i <= j < q1.len() implies (#[trigger] q1[i]).evict_at <= (
                #[trigger] q1[j]).evict_at by {
                    assert(q1[i] == q0[i + k]);
                    assert(q1[j] == q0[j + k]);
                }
                assert forall|i: int| 0 <= i < q1.len() implies (#[trigger] q1[i]).evict_at > now by {
                    assert(q1[0].evict_at <= q1[i].evict_at);
                }
            }
        }
    }

    /// The namespace pid of `pid` at time `now`. Expired entries are dropped
    /// first whenever `evict_every` has passed since the last eviction,
    /// which then happened at `now`: evictions run at most once per interval.
    pub fn get(&mut self, pid: i32, now: u64) -> (r: Option<i32>)
        ensures
            !eviction_due(old(self).spec_last_eviction(), old(self).spec_evict_every(), now) ==> final(self).entries()
                == old(self).entries() && final(self).queue() == old(self).queue(),
            eviction_due(old(self).spec_last_eviction(), old(self).spec_evict_every(), now) ==> {
                let k = old(self).queue().len() - final(self).queue().len();
                &&& final(self).queue().len() <= old(self).queue().len()
                &&& final(self).queue() == old(self).queue().skip(k)
                &&& forall|i: int| 0 <= i < k ==> (#[trigger] old(self).queue()[i]).evict_at <= now
                &&& final(self).entries() == old(self).entries().remove_keys(evicted_pids(old(self).queue().take(k)))
                &&& (final(self).queue().len() == 0 || final(self).queue()[0].evict_at > now)
                &&& queue_in_time_order(old(self).queue()) ==> queue_in_time_order(final(self).queue()) && forall|i: int|
                    0 <= i < final(self).queue().len() ==> (#[trigger] final(self).queue()[i]).evict_at > now
            },
            final(self).entries().contains_key(pid) ==> r == Some(final(self).entries()[pid]),
            !final(self).entries().contains_key(pid) ==> r is None,
            final(self).spec_evict_after() == old(self).spec_evict_after(),
            final(self).spec_evict_every() == old(self).spec_evict_every(),
            eviction_due(old(self).spec_last_eviction(), old(self).spec_evict_every(), now) ==> final(self).spec_last_eviction()
                == now,
            !eviction_due(old(self).spec_last_eviction(), old(self).spec_evict_every(), now) ==> final(self).spec_last_eviction()
                == old(self).spec_last_eviction(),
    {
        let due = match self.last_eviction.checked_add(self.evict_every) {
            Some(t) => t <= now,
            None => false,
        };
        if due {
            self.evict_expired(now);
            self.last_eviction = now;
        }
        match self.cache.get(&pid) {
            Some(n) => Some(*n),
            None => None,
        }
    }

    /// The pending evictions, oldest first.
    pub fn eviction_queue(&self) -> (r: Vec<Eviction>)
        ensures
            r@ == self.queue(),
    {
        let mut out: Vec<Eviction> = Vec::new();
        let mut i: usize = 0;
        while i < self.eviction_queue.len()
            invariant
                i <= self.eviction_queue@.len(),
                out@ == self.eviction_queue@.take(i as int),
            decreases self.eviction_queue@.len() - i,
        {
            out.push(self.eviction_queue[i]);
            proof {
                assert(out@ =~= self.eviction_queue@.take(i + 1));
            }
            i = i + 1;
        }
        proof {
            assert(self.eviction_queue@.take(self.eviction_queue@.len() as int) =~= self.eviction_queue@);
        }
        out
    }
}

/// Eviction only drops processes whose exit was recorded: a cached process
/// with no pending eviction keeps its entry, with the same namespace pid,
/// however much of the queue is evicted.
pub proof fn law_unexited_process_stays_cached(entries: Map<i32, i32>, queue: Seq<Eviction>, k: int, pid: i32)
    requires
        entries.contains_key(pid),
        !evicted_pids(queue).contains(pid),
        0 <= k <= queue.len(),
    ensures
        entries.remove_keys(evicted_pids(queue.take(k))).contains_key(pid),
        entries.remove_keys(evicted_pids(queue.take(k)))[pid] == entries[pid],
{
    if evicted_pids(queue.take(k)).contains(pid) {
        let pids = queue.take(k).map_values(|e: Eviction| e.pid);
        let j = choose|j: int| 0 <= j < pids.len() && #[trigger] pids[j] == pid;
        assert(queue.map_values(|e: Eviction| e.pid)[j] == pid);
        assert(evicted_pids(queue).contains(pid));
    }
}

/// Once a process's eviction is due and the queue is drained up to it, its
/// entry is gone.
pub proof fn law_due_eviction_drops_entry(entries: Map<i32, i32>, queue: Seq<Eviction>, k: int, j: int)
    requires
        0 <= j < k <= queue.len(),
    ensures
        !entries.remove_keys(evicted_pids(queue.take(k))).contains_key(queue[j].pid),
{
    assert(queue.take(k).map_values(|e: Eviction| e.pid)[j] == queue[j].pid);
    assert(evicted_pids(queue.take(k)).contains(queue[j].pid));
}

/// An exited process stays mapped until its eviction is due: when every
/// eviction queued for it falls after `now`, draining the due evictions
/// (a prefix of the queue, all due by `now`) keeps its entry.
pub proof fn law_pending_exit_keeps_entry(entries: Map<i32, i32>, queue: Seq<Eviction>, k: int, pid: i32, now: u64)
    requires
        entries.contains_key(pid),
        0 <= k <= queue.len(),
        forall|i: int| 0 <= i < k ==> (#[trigger] queue[i]).evict_at <= now,
        forall|i: int| 0 <= i < queue.len() && (#[trigger] queue[i]).pid == pid ==> queue[i].evict_at > now,
    ensures
        entries.remove_keys(evicted_pids(queue.take(k))).contains_key(pid),
        entries.remove_keys(evicted_pids(queue.take(k)))[pid] == entries[pid],
{
    if evicted_pids(queue.take(k)).contains(pid) {
        let pids = queue.take(k).map_values(|e: Eviction| e.pid);
        let j = choose|j: int| 0 <= j < pids.len() && #[trigger] pids[j] == pid;
        assert(queue[j].pid == pid);
        assert(queue[j].evict_at <= now);
    }
}

/// Evictions run at most once per interval: right after an eviction at
/// `now`, a lookup before `now + evict_every` changes neither the entries nor
/// the queue.
pub proof fn law_at_most_one_eviction_per_interval(last: u64, every: u64, now: u64, later: u64)
    requires
        eviction_due(last, every, now),
        later < now + every,
    ensures
        !eviction_due(now, every, later),
{
}

} // verus!
