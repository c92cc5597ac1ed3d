//! One event of an observation stream: whether the subscription's filter
//! lets it through, and the pid it is reported with.
use vstd::prelude::*;
use crate::cgroup_cache::{CgroupCache, CgroupWalker};
use crate::observe::{accept_event, cell_cgroup_path, eq_ignore_ascii_case, event_filter, reported_pid, EventFilter, WorkloadType};
use crate::proc_cache::{eviction_due, law_pending_exit_keeps_entry, ProcCache};

verus! {

/// Handles one event from the cgroup `cgroup_id` about the host process
/// `host_pid`. Without a cgroup filter the event passes; with one, it
/// passes only if the cgroup's path (looked up, walking the cgroup
/// filesystem when it is not cached) equals the filter's up to ASCII case.
/// A passing event is reported with the namespace pid the process cache
/// knows at `now`, or with its host pid. `None` means filtered out.
pub fn process_event<W: CgroupWalker>(
    filter: &EventFilter,
    cgroups: &mut CgroupCache,
    walker: &mut W,
    procs: &mut ProcCache,
    cgroup_id: u64,
    host_pid: i32,
    now: u64,
) -> (r: Option<i32>)
    ensures
        !filter.match_cgroup_path ==> r is Some && final(cgroups).paths() == old(cgroups).paths(),
        filter.match_cgroup_path && !final(cgroups).paths().contains_key(cgroup_id) ==> r is None,
        filter.match_cgroup_path && final(cgroups).paths().contains_key(cgroup_id) ==> (r is Some
            <==> eq_ignore_ascii_case(final(cgroups).paths()[cgroup_id], filter.cgroup_path@)),
        r is None ==> *final(procs) == *old(procs),
        r matches Some(p) ==> (final(procs).entries().contains_key(host_pid) ==> p == final(procs).entries()[host_pid])
            && (!final(procs).entries().contains_key(host_pid) ==> p == host_pid),
        r is Some && !eviction_due(old(procs).spec_last_eviction(), old(procs).spec_evict_every(), now)
            ==> final(procs).entries() == old(procs).entries() && final(procs).queue() == old(procs).queue()
            && final(procs).spec_last_eviction() == old(procs).spec_last_eviction(),
        r is Some && eviction_due(old(procs).spec_last_eviction(), old(procs).spec_evict_every(), now)
            ==> final(procs).spec_last_eviction() == now,
        r is Some && old(procs).entries().contains_key(host_pid) && (forall|i: int|
            0 <= i < old(procs).queue().len() && (#[trigger] old(procs).queue()[i]).pid == host_pid
                ==> old(procs).queue()[i].evict_at > now) ==> r == Some(old(procs).entries()[host_pid]),
{
    let accept = if filter.match_cgroup_path {
        let path = cgroups.get(walker, cgroup_id);
        match path {
            Some(p) => accept_event(filter, Some(p.as_str())),
            None => accept_event(filter, None),
        }
    } else {
        accept_event(filter, None)
    };
    if !accept {
        return None;
    }
    let namespace_pid = procs.get(host_pid, now);
    proof {
        if old(procs).entries().contains_key(host_pid) && (forall|i: int|
            0 <= i < old(procs).queue().len() && (#[trigger] old(procs).queue()[i]).pid == host_pid
                ==> old(procs).queue()[i].evict_at > now) && eviction_due(
            old(procs).spec_last_eviction(),
            old(procs).spec_evict_every(),
            now,
        ) {
            let k = old(procs).queue().len() - procs.queue().len();
            law_pending_exit_keeps_entry(old(procs).entries(), old(procs).queue(), k, host_pid, now);
        }
    }
    Some(reported_pid(host_pid, namespace_pid))
}

/// A signal sent to a process, as the observe service reports it.
#[derive(Debug, Clone, Copy, PartialEq, Eq)]
pub struct PosixSignal {
    pub signal: i32,
    pub process_id: i64,
}

/// The report of signal `signr` sent to the process reported as `pid`.
pub fn posix_signal_response(signr: i32, pid: i32) -> (r: PosixSignal)
    ensures
        r.signal == signr,
        r.process_id == pid as i64,
{
    PosixSignal { signal: signr, process_id: pid as i64 }
}

/// The id of the workload a filter names (empty without one).
pub open spec fn workload_id(f: Option<(WorkloadType, Seq<char>)>) -> Seq<char> {
    match f {
        Some((_, id)) => id,
        None => Seq::empty(),
    }
}

/// A subscription to a stream of events: which workload it is filtered to,
/// and the process cache its pids are mapped through, if any.
pub struct ObservedEventStream {
    workload_filter: Option<(WorkloadType, String)>,
    proc_cache: Option<ProcCache>,
}

impl ObservedEventStream {
    /// Whether the stream is filtered to a workload.
    pub closed spec fn filtered(&self) -> Option<(WorkloadType, Seq<char>)> {
        match self.workload_filter {
            Some((t, id)) => Some((t, id@)),
            None => None,
        }
    }

    /// Whether the stream maps pids.
    pub closed spec fn maps_pids(&self) -> bool {
        self.proc_cache is Some
    }

    /// The process cache the stream maps pids through, when it maps pids.
    pub closed spec fn pid_cache(&self) -> Option<ProcCache> {
        self.proc_cache
    }

    /// The namespace pids the stream maps through, when it maps pids.
    pub closed spec fn pid_map(&self) -> Option<Map<i32, i32>> {
        match self.proc_cache {
            Some(c) => Some(c.entries()),
            None => None,
        }
    }

    /// A stream with no filter that reports host pids.
    pub fn new() -> (r: Self)
        ensures
            r.filtered() is None,
            !r.maps_pids(),
    {
        ObservedEventStream { workload_filter: None, proc_cache: None }
    }

    /// Filters the stream to a workload (or to none).
    pub fn filter_by_workload(&mut self, workload: Option<(WorkloadType, String)>)
        ensures
            final(self).filtered() == (match workload {
                Some((t, id)) => Some((t, id@)),
                None => None::<(WorkloadType, Seq<char>)>,
            }),
            final(self).maps_pids() == old(self).maps_pids(),
    {
        self.workload_filter = workload;
    }

    /// Maps the stream's pids through `proc_cache`.
    pub fn map_pids(&mut self, proc_cache: ProcCache)
        ensures
            final(self).filtered() == old(self).filtered(),
            final(self).maps_pids(),
    {
        self.proc_cache = Some(proc_cache);
    }

    /// The cgroup filter of the stream.
    pub fn filter(&self) -> (r: EventFilter)
        ensures
            (self.filtered() matches Some((WorkloadType::Cell, id))) ==> r.match_cgroup_path
                && r.cgroup_path@ == cell_cgroup_path(workload_id(self.filtered())),
            !(self.filtered() matches Some((WorkloadType::Cell, _))) ==> !r.match_cgroup_path,
    {
        match &self.workload_filter {
            Some((WorkloadType::Cell, id)) => event_filter(Some((WorkloadType::Cell, String::from_str(id.as_str())))),
            _ => event_filter(None),
        }
    }

    /// Handles one event of the stream: `None` when the filter drops it,
    /// otherwise the pid it is reported with (mapped when the stream maps
    /// pids and the cache knows the process, the host pid otherwise).
    pub fn handle<W: CgroupWalker>(&mut self, cgroups: &mut CgroupCache, walker: &mut W, cgroup_id: u64, host_pid: i32, now: u64) -> (r: Option<i32>)
        ensures
            final(self).filtered() == old(self).filtered(),
            final(self).maps_pids() == old(self).maps_pids(),
            !(old(self).filtered() matches Some((WorkloadType::Cell, _))) ==> r is Some
                && final(cgroups).paths() == old(cgroups).paths(),
            (old(self).filtered() matches Some((WorkloadType::Cell, _))) && !final(cgroups).paths().contains_key(
                cgroup_id,
            ) ==> r is None,
            (old(self).filtered() matches Some((WorkloadType::Cell, _))) && final(cgroups).paths().contains_key(
                cgroup_id,
            ) ==> (r is Some <==> eq_ignore_ascii_case(
                final(cgroups).paths()[cgroup_id],
                cell_cgroup_path(workload_id(old(self).filtered())),
            )),
            r is None ==> final(self).pid_map() == old(self).pid_map(),
            !old(self).maps_pids() ==> final(self).pid_map() is None && (r matches Some(p) ==> p == host_pid),
            r matches Some(p) ==> (final(self).pid_map() matches Some(m) ==> ((m.contains_key(host_pid) ==> p
                == m[host_pid]) && (!m.contains_key(host_pid) ==> p == host_pid))),
            r is Some ==> (old(self).pid_cache() matches Some(c) ==> (c.entries().contains_key(host_pid) && (forall|i: int|
                0 <= i < c.queue().len() && (#[trigger] c.queue()[i]).pid == host_pid ==> c.queue()[i].evict_at > now)
                ==> r == Some(c.entries()[host_pid]))),
    {
        let filter = self.filter();
        match &mut self.proc_cache {
            Some(procs) => process_event(&filter, cgroups, walker, procs, cgroup_id, host_pid, now),
            None => {
                let accept = if filter.match_cgroup_path {
                    match cgroups.get(walker, cgroup_id) {
                        Some(p) => accept_event(&filter, Some(p.as_str())),
                        None => false,
                    }
                } else {
                    true
                };
                if accept {
                    Some(host_pid)
                } else {
                    None
                }
            },
        }
    }
}

} // verus!
