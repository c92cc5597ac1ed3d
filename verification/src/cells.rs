//! Cells: a cgroup with a nested daemon in it, and the store of cells that
//! a daemon manages.
use vstd::prelude::*;
use crate::errors::SystemError;
use crate::isolation::IsolationControls;
use crate::names::CellName;
use crate::resources::{CgroupSpec, CpuCpus, CpuQuota, CpuWeight, CpusetMems};
use crate::table::{NameTable, TableError};

verus! {

/// The settings of a cell: its cgroup resources and its isolation.
#[derive(Debug, Clone)]
pub struct CellSpec {
    pub cgroup_spec: CgroupSpec,
    pub iso_ctl: IsolationControls,
}

impl CellSpec {
    /// A spec with no resource limits that isolates processes and network.
    pub fn new_for_tests() -> (r: Self)
        ensures
            r.cgroup_spec.cpu_cpus@.len() == 0,
            r.cgroup_spec.cpu_quota@ == 0,
            r.cgroup_spec.cpu_weight@ == 0,
            r.cgroup_spec.cpuset_mems@.len() == 0,
            r.iso_ctl.isolate_network,
            r.iso_ctl.isolate_process,
    {
        CellSpec {
            cgroup_spec: CgroupSpec {
                cpu_cpus: CpuCpus::new(Vec::new()),
                cpu_quota: CpuQuota::new(0),
                cpu_weight: CpuWeight::new(0),
                cpuset_mems: CpusetMems::new(String::new()),
            },
            iso_ctl: IsolationControls { isolate_network: true, isolate_process: true },
        }
    }
}

/// Why an operation on cells failed.
#[derive(Debug)]
pub enum CellsError {
    CellExists { cell_name: CellName },
    CellNotFound { cell_name: CellName },
    CellNotAllocated { cell_name: CellName },
    FailedToAllocateCell { cell_name: CellName, source: SystemError },
    AbortedAllocateCell { cell_name: CellName, source: SystemError },
    FailedToKillCellChildren { cell_name: CellName, source: SystemError },
    FailedToFreeCell { cell_name: CellName, source: SystemError },
}

/// The cgroup of a cell.
pub trait CellCgroup {
    /// Moves a process into the cgroup.
    fn add_task(&self, pid: i32) -> Result<(), SystemError>;

    /// Removes the cgroup.
    fn delete(&self) -> Result<(), SystemError>;

    /// Whether the cgroup lives in the unified (v2) hierarchy.
    fn v2(&self) -> bool;
}

/// The daemon running inside a cell.
pub trait NestedDaemon {
    /// How clients reach the daemon.
    type Config;

    /// Its process id.
    fn pid(&self) -> i32;

    /// Asks it to stop and waits for it; gives its exit status.
    fn shutdown(&mut self) -> Result<i32, SystemError>;

    /// Kills it and waits for it; gives its exit status.
    fn kill(&mut self) -> Result<i32, SystemError>;

    /// A copy of how clients reach it.
    fn client_config(&self) -> Self::Config;
}

/// Creates what a cell is made of.
pub trait CellBackend<G, D> {
    /// Creates the cgroup for a cell.
    fn create_cgroup(&mut self, cell_name: &CellName, spec: &CgroupSpec) -> G;

    /// Starts the daemon of a cell.
    fn spawn_nested_auraed(&mut self, cell_name: &CellName, iso_ctl: &IsolationControls) -> Result<D, SystemError>;
}

/// Where a cell is in its life.
#[derive(Debug, Clone, Copy, PartialEq, Eq)]
pub enum CellPhase {
    /// Created, nothing allocated yet.
    Unallocated,
    /// Its cgroup exists and its daemon runs in it.
    Allocated,
    /// Freed; it is never allocated again.
    Freed,
}

enum CellState<G, D> {
    Unallocated,
    Allocated { cgroup: G, nested_auraed: D, pid: i32 },
    Freed,
}

/// A cell. Its name and settings never change; free it and make a new one
/// to change anything.
pub struct Cell<G, D> {
    name: CellName,
    spec: CellSpec,
    state: CellState<G, D>,
}

/// The error kinds of cells, without their payloads.
#[derive(Debug, Clone, Copy, PartialEq, Eq)]
pub enum CellsErrorKind {
    CellExists,
    CellNotFound,
    CellNotAllocated,
    FailedToAllocateCell,
    AbortedAllocateCell,
    FailedToKillCellChildren,
    FailedToFreeCell,
}

impl CellsError {
    /// The kind of the error.
    pub open spec fn kind(&self) -> CellsErrorKind {
        match self {
            CellsError::CellExists { .. } => CellsErrorKind::CellExists,
            CellsError::CellNotFound { .. } => CellsErrorKind::CellNotFound,
            CellsError::CellNotAllocated { .. } => CellsErrorKind::CellNotAllocated,
            CellsError::FailedToAllocateCell { .. } => CellsErrorKind::FailedToAllocateCell,
            CellsError::AbortedAllocateCell { .. } => CellsErrorKind::AbortedAllocateCell,
            CellsError::FailedToKillCellChildren { .. } => CellsErrorKind::FailedToKillCellChildren,
            CellsError::FailedToFreeCell { .. } => CellsErrorKind::FailedToFreeCell,
        }
    }

    /// The cell the error is about.
    pub open spec fn cell(&self) -> Seq<char> {
        match self {
            CellsError::CellExists { cell_name } => cell_name@,
            CellsError::CellNotFound { cell_name } => cell_name@,
            CellsError::CellNotAllocated { cell_name } => cell_name@,
            CellsError::FailedToAllocateCell { cell_name, .. } => cell_name@,
            CellsError::AbortedAllocateCell { cell_name, .. } => cell_name@,
            CellsError::FailedToKillCellChildren { cell_name, .. } => cell_name@,
            CellsError::FailedToFreeCell { cell_name, .. } => cell_name@,
        }
    }

    /// The kind of the error (executable form).
    pub fn error_kind(&self) -> (r: CellsErrorKind)
        ensures
            r == self.kind(),
    {
        match self {
            CellsError::CellExists { .. } => CellsErrorKind::CellExists,
            CellsError::CellNotFound { .. } => CellsErrorKind::CellNotFound,
            CellsError::CellNotAllocated { .. } => CellsErrorKind::CellNotAllocated,
            CellsError::FailedToAllocateCell { .. } => CellsErrorKind::FailedToAllocateCell,
            CellsError::AbortedAllocateCell { .. } => CellsErrorKind::AbortedAllocateCell,
            CellsError::FailedToKillCellChildren { .. } => CellsErrorKind::FailedToKillCellChildren,
            CellsError::FailedToFreeCell { .. } => CellsErrorKind::FailedToFreeCell,
        }
    }
}

fn copy_name(name: &CellName) -> (r: CellName)
    ensures
        r@ == name@,
{
    CellName::new(String::from_str(name.as_str()))
}

/// The phase a cell reaches from `phase` when allocation ends with an error
/// of kind `err` (`None` when it succeeds).
pub open spec fn phase_after_allocate(phase: CellPhase, err: Option<CellsErrorKind>) -> CellPhase {
    if phase != CellPhase::Unallocated {
        phase
    } else {
        match err {
            None => CellPhase::Allocated,
            Some(CellsErrorKind::AbortedAllocateCell) => CellPhase::Freed,
            Some(_) => CellPhase::Unallocated,
        }
    }
}

/// The phase a cell reaches from `phase` when freeing (or killing) it ends
/// with an error of kind `err` (`None` when it succeeds).
pub open spec fn phase_after_free(phase: CellPhase, err: Option<CellsErrorKind>) -> CellPhase {
    match err {
        None => CellPhase::Freed,
        Some(_) => phase,
    }
}

/// A backend of type `B` was asked to create the cgroup of the cell named
/// `name` with `spec`, and gave `g`.
pub open spec fn created_cgroup<G, D, B: CellBackend<G, D>>(name: Seq<char>, spec: CgroupSpec, g: G) -> bool {
    exists|b: &mut B, n: CellName| n@ == name && call_ensures(B::create_cgroup, (b, &n, &spec), g)
}

/// A backend of type `B` was asked to start the daemon of the cell named
/// `name` with the isolation controls `iso`, and answered `r`.
pub open spec fn spawned_daemon<G, D, B: CellBackend<G, D>>(
    name: Seq<char>,
    iso: IsolationControls,
    r: Result<D, SystemError>,
) -> bool {
    exists|b: &mut B, n: CellName| n@ == name && call_ensures(B::spawn_nested_auraed, (b, &n, &iso), r)
}

/// The daemon `d` was asked for its pid and answered `pid`.
pub open spec fn daemon_reported_pid<D: NestedDaemon>(d: D, pid: i32) -> bool {
    call_ensures(D::pid, (&d,), pid)
}

/// The cgroup `g` was asked to take in `pid`, and answered `r`.
pub open spec fn task_added<G: CellCgroup>(g: G, pid: i32, r: Result<(), SystemError>) -> bool {
    call_ensures(G::add_task, (&g, pid), r)
}

/// The cgroup `g` was asked to delete itself, and answered `r`.
pub open spec fn cgroup_deleted<G: CellCgroup>(g: G, r: Result<(), SystemError>) -> bool {
    call_ensures(G::delete, (&g,), r)
}

/// The daemon `d` was killed (`hard`) or asked to stop, waited for, and that
/// answered `r`.
pub open spec fn daemon_stopped<D: NestedDaemon>(d: D, hard: bool, r: Result<i32, SystemError>) -> bool {
    exists|m: &mut D| *m == d && if hard {
        call_ensures(D::kill, (m,), r)
    } else {
        call_ensures(D::shutdown, (m,), r)
    }
}

/// The result of an operation with its value dropped.
pub open spec fn as_unit<T>(r: Result<T, CellsError>) -> Result<(), CellsError> {
    match r {
        Ok(_) => Ok(()),
        Err(e) => Err(e),
    }
}

/// How an allocation ends once the cgroup `g` was created and the daemon's
/// start answered `s`: see [allocation_outcome].
pub open spec fn spawn_outcome<G: CellCgroup, D: NestedDaemon>(
    name: Seq<char>,
    g: G,
    s: Result<D, SystemError>,
    after: Cell<G, D>,
    r: Result<(), CellsError>,
) -> bool {
    &&& (s matches Err(e) ==> (exists|x: Result<(), SystemError>| #[trigger] cgroup_deleted(g, x))
        && after.phase() == CellPhase::Unallocated && (r matches Err(
        CellsError::FailedToAllocateCell { cell_name, source },
    ) && cell_name@ == name && source == e))
    &&& (s matches Ok(d) ==> exists|pid: i32, a: Result<(), SystemError>|
        #![trigger task_added(g, pid, a)]
        daemon_reported_pid(d, pid) && task_added(g, pid, a) && join_outcome(name, g, d, pid, a, after, r))
}

/// How an allocation ends once the daemon `d` started and its pid `pid`
/// was handed to the cgroup `g`, which answered `a`: see
/// [allocation_outcome].
pub open spec fn join_outcome<G: CellCgroup, D: NestedDaemon>(
    name: Seq<char>,
    g: G,
    d: D,
    pid: i32,
    a: Result<(), SystemError>,
    after: Cell<G, D>,
    r: Result<(), CellsError>,
) -> bool {
    &&& (a is Ok ==> r is Ok && after.phase() == CellPhase::Allocated && after.cgroup() == Some(g)
        && after.daemon() == Some(d) && after.daemon_pid() == Some(pid))
    &&& (a matches Err(e) ==> (exists|x: Result<i32, SystemError>| #[trigger] daemon_stopped(d, false, x))
        && (exists|y: Result<(), SystemError>| #[trigger] cgroup_deleted(g, y))
        && after.phase() == CellPhase::Freed && (r matches Err(
        CellsError::AbortedAllocateCell { cell_name, source },
    ) && cell_name@ == name && source == e))
}

/// How allocating the cell `before` ends up as `after` with result `r`,
/// through a backend of type `B`. A cell that is not unallocated is left as
/// it was. Otherwise the cgroup is created for the cell's name and cgroup
/// settings and the daemon started with its isolation controls; then:
/// - if the daemon did not start, the cgroup is asked to delete itself, the
///   cell stays unallocated and the start error is given;
/// - otherwise the daemon's pid is handed to the cgroup; if it joined, the
///   cell is allocated with that cgroup, daemon and pid; if not, the daemon
///   is asked to stop, the cgroup to delete itself, the cell is freed and the
///   join error is given as an aborted allocation.
pub open spec fn allocation_outcome<G: CellCgroup, D: NestedDaemon, B: CellBackend<G, D>>(
    before: Cell<G, D>,
    after: Cell<G, D>,
    r: Result<(), CellsError>,
) -> bool {
    let name = before.cell_name();
    let spec = before.cell_spec();
    &&& after.cell_name() == name
    &&& after.cell_spec() == spec
    &&& before.phase() != CellPhase::Unallocated ==> r is Ok && after == before
    &&& before.phase() == CellPhase::Unallocated ==> exists|g: G, s: Result<D, SystemError>|
        #![trigger created_cgroup::<G, D, B>(name, spec.cgroup_spec, g), spawned_daemon::<G, D, B>(name, spec.iso_ctl, s)]
        created_cgroup::<G, D, B>(name, spec.cgroup_spec, g) && spawned_daemon::<G, D, B>(name, spec.iso_ctl, s)
            && spawn_outcome(name, g, s, after, r)
}

/// How freeing (or, `hard`, killing) the cell `before` ends up as `after`
/// with result `r`. A cell that is not allocated is simply freed. Otherwise
/// its daemon is stopped and waited for; if that fails the cell stays
/// allocated with its cgroup and pid and the error is given; otherwise the
/// cgroup is asked to delete itself, and the cell is freed, or, if that
/// fails, stays allocated and the error is given.
pub open spec fn free_outcome<G: CellCgroup, D: NestedDaemon>(
    before: Cell<G, D>,
    after: Cell<G, D>,
    hard: bool,
    r: Result<(), CellsError>,
) -> bool {
    let name = before.cell_name();
    &&& after.cell_name() == name
    &&& after.cell_spec() == before.cell_spec()
    &&& before.phase() != CellPhase::Allocated ==> r is Ok && after.phase() == CellPhase::Freed
    &&& before.phase() == CellPhase::Allocated ==> exists|st: Result<i32, SystemError>|
        #[trigger] daemon_stopped(before.daemon()->0, hard, st) && {
            &&& (st matches Err(e) ==> after.phase() == CellPhase::Allocated && after.cgroup() == before.cgroup()
                && after.daemon_pid() == before.daemon_pid() && (r matches Err(
                CellsError::FailedToKillCellChildren { cell_name, source },
            ) && cell_name@ == name && source == e))
            &&& (st is Ok ==> exists|del: Result<(), SystemError>| #[trigger] cgroup_deleted(before.cgroup()->0, del) && {
                &&& (del is Ok ==> r is Ok && after.phase() == CellPhase::Freed)
                &&& (del matches Err(e) ==> after.phase() == CellPhase::Allocated && after.cgroup() == before.cgroup()
                    && after.daemon_pid() == before.daemon_pid() && (r matches Err(
                    CellsError::FailedToFreeCell { cell_name, source },
                ) && cell_name@ == name && source == e))
            })
        }
}

pub open spec fn err_kind<T>(r: Result<T, CellsError>) -> Option<CellsErrorKind> {
    match r {
        Ok(_) => None,
        Err(e) => Some(e.kind()),
    }
}

impl<G: CellCgroup, D: NestedDaemon> Cell<G, D> {
    /// The name of the cell.
    pub closed spec fn cell_name(&self) -> Seq<char> {
        self.name@
    }

    /// Where the cell is in its life.
    pub closed spec fn phase(&self) -> CellPhase {
        match self.state {
            CellState::Unallocated => CellPhase::Unallocated,
            CellState::Allocated { .. } => CellPhase::Allocated,
            CellState::Freed => CellPhase::Freed,
        }
    }

    /// Its settings.
    pub closed spec fn cell_spec(&self) -> CellSpec {
        self.spec
    }

    /// Its cgroup, while allocated.
    pub closed spec fn cgroup(&self) -> Option<G> {
        match self.state {
            CellState::Allocated { cgroup, .. } => Some(cgroup),
            _ => None,
        }
    }

    /// Its daemon, while allocated.
    pub closed spec fn daemon(&self) -> Option<D> {
        match self.state {
            CellState::Allocated { nested_auraed, .. } => Some(nested_auraed),
            _ => None,
        }
    }

    /// The pid of its daemon, which joined its cgroup, while allocated.
    pub closed spec fn daemon_pid(&self) -> Option<i32> {
        match self.state {
            CellState::Allocated { pid, .. } => Some(pid),
            _ => None,
        }
    }

    /// A new, unallocated cell.
    pub fn new(name: CellName, cell_spec: CellSpec) -> (r: Self)
        ensures
            r.cell_name() == name@,
            r.cell_spec() == cell_spec,
            r.phase() == CellPhase::Unallocated,
    {
        Cell { name, spec: cell_spec, state: CellState::Unallocated }
    }

    /// Creates the cgroup (named after the cell, with its cgroup settings),
    /// starts the nested daemon (with its isolation controls) and adds the
    /// daemon's pid to the cgroup. Does nothing unless the cell is
    /// unallocated. If the daemon does not start, the cgroup is deleted and
    /// the cell stays unallocated; if the daemon cannot join the cgroup, the
    /// daemon is stopped, the cgroup deleted, the cell freed and the
    /// allocation reported aborted. Nothing is left behind either way.
    pub fn allocate<B: CellBackend<G, D>>(&mut self, backend: &mut B) -> (r: Result<(), CellsError>)
        ensures
            allocation_outcome::<G, D, B>(*old(self), *final(self), r),
            final(self).phase() == phase_after_allocate(old(self).phase(), err_kind(r)),
    {
        match self.state {
            CellState::Unallocated => {},
            _ => {
                return Ok(());
            },
        }
        let ghost start = *self;
        let cgroup = backend.create_cgroup(&self.name, &self.spec.cgroup_spec);
        let spawned = backend.spawn_nested_auraed(&self.name, &self.spec.iso_ctl);
        proof {
            assert(created_cgroup::<G, D, B>(self.name@, self.spec.cgroup_spec, cgroup));
            assert(spawned_daemon::<G, D, B>(self.name@, self.spec.iso_ctl, spawned));
        }
        let mut auraed = match spawned {
            Ok(d) => d,
            Err(e) => {
                let deleted = cgroup.delete();
                let r = Err(CellsError::FailedToAllocateCell { cell_name: copy_name(&self.name), source: e });
                proof {
                    assert(cgroup_deleted(cgroup, deleted));
                    assert(spawn_outcome(self.name@, cgroup, spawned, *self, r));
                    assert(self.cell_name() == start.cell_name());
                    assert(self.cell_spec() == start.cell_spec());
                    assert(allocation_outcome::<G, D, B>(start, *self, r));
                }
                return r;
            },
        };
        let ghost d0 = auraed;
        let pid = auraed.pid();
        let added = cgroup.add_task(pid);
        proof {
            assert(daemon_reported_pid(d0, pid));
            assert(task_added(cgroup, pid, added));
        }
        match added {
            Ok(()) => {},
            Err(e) => {
                let stopped = auraed.shutdown();
                let deleted = cgroup.delete();
                proof {
                    assert(daemon_stopped(d0, false, stopped));
                    assert(cgroup_deleted(cgroup, deleted));
                }
                self.state = CellState::Freed;
                let r = Err(CellsError::AbortedAllocateCell { cell_name: copy_name(&self.name), source: e });
                proof {
                    assert(join_outcome(self.name@, cgroup, d0, pid, added, *self, r));
                    assert(spawn_outcome(self.name@, cgroup, spawned, *self, r));
                    assert(self.cell_name() == start.cell_name());
                    assert(self.cell_spec() == start.cell_spec());
                    assert(allocation_outcome::<G, D, B>(start, *self, r));
                }
                return r;
            },
        }
        self.state = CellState::Allocated { cgroup, nested_auraed: auraed, pid };
        proof {
            assert(join_outcome(self.name@, cgroup, d0, pid, added, *self, Ok(())));
            assert(spawn_outcome(self.name@, cgroup, spawned, *self, Ok(())));
            assert(allocation_outcome::<G, D, B>(start, *self, Ok(())));
        }
        Ok(())
    }

    /// Stops the nested daemon gracefully and deletes the cgroup. The cell
    /// is freed whatever it was before, unless stopping or deleting fails,
    /// which leaves it allocated.
    pub fn free(&mut self) -> (r: Result<(), CellsError>)
        ensures
            free_outcome(*old(self), *final(self), false, r),
            final(self).phase() == phase_after_free(old(self).phase(), err_kind(r)),
    {
        self.do_free(false)
    }

    /// Kills the nested daemon and deletes the cgroup, with the same
    /// outcomes as [Cell::free].
    pub fn kill(&mut self) -> (r: Result<(), CellsError>)
        ensures
            free_outcome(*old(self), *final(self), true, r),
            final(self).phase() == phase_after_free(old(self).phase(), err_kind(r)),
    {
        self.do_free(true)
    }

    fn do_free(&mut self, hard: bool) -> (r: Result<(), CellsError>)
        ensures
            free_outcome(*old(self), *final(self), hard, r),
            final(self).phase() == phase_after_free(old(self).phase(), err_kind(r)),
    {
        let ghost before = *self;
        match &mut self.state {
            CellState::Allocated { cgroup, nested_auraed, .. } => {
                let stopped = if hard { nested_auraed.kill() } else { nested_auraed.shutdown() };
                proof {
                    assert(daemon_stopped(before.daemon()->0, hard, stopped));
                }
                match stopped {
                    Ok(_) => {},
                    Err(e) => {
                        return Err(CellsError::FailedToKillCellChildren { cell_name: copy_name(&self.name), source: e });
                    },
                }
                let deleted = cgroup.delete();
                proof {
                    assert(cgroup_deleted(before.cgroup()->0, deleted));
                }
                match deleted {
                    Ok(()) => {},
                    Err(e) => {
                        return Err(CellsError::FailedToFreeCell { cell_name: copy_name(&self.name), source: e });
                    },
                }
            },
            _ => {},
        }
        self.state = CellState::Freed;
        Ok(())
    }

    /// How to reach the nested daemon; only an allocated cell has one.
    pub fn client_config(&self) -> (r: Result<D::Config, CellsError>)
        ensures
            self.phase() == CellPhase::Allocated ==> (r matches Ok(c) && call_ensures(
                D::client_config,
                (&self.daemon()->0,),
                c,
            )),
            self.phase() != CellPhase::Allocated ==> (r matches Err(e)
                && e.kind() == CellsErrorKind::CellNotAllocated && e.cell() == self.cell_name()),
    {
        match &self.state {
            CellState::Allocated { nested_auraed, .. } => Ok(nested_auraed.client_config()),
            _ => Err(CellsError::CellNotAllocated { cell_name: copy_name(&self.name) }),
        }
    }

    /// The name of the cell.
    pub fn name(&self) -> (r: &CellName)
        ensures
            r@ == self.cell_name(),
    {
        &self.name
    }

    /// Whether the cgroup is in the v2 hierarchy; `None` unless allocated.
    pub fn v2(&self) -> (r: Option<bool>)
        ensures
            r is Some <==> self.phase() == CellPhase::Allocated,
            r matches Some(b) ==> call_ensures(G::v2, (&self.cgroup()->0,), b),
    {
        match &self.state {
            CellState::Allocated { cgroup, .. } => Some(cgroup.v2()),
            _ => None,
        }
    }
}

} // verus!

verus! {

/// Allocation never brings a freed cell back: whatever allocating a freed
/// cell ends with, the cell stays freed.
pub proof fn law_freed_cell_stays_freed(err: Option<CellsErrorKind>)
    ensures
        phase_after_allocate(CellPhase::Freed, err) == CellPhase::Freed,
{
}

/// Allocating an allocated cell changes nothing, and a successful free
/// always ends in the freed phase.
pub proof fn law_allocation_is_idempotent(phase: CellPhase, err: Option<CellsErrorKind>)
    ensures
        phase_after_allocate(CellPhase::Allocated, err) == CellPhase::Allocated,
        phase_after_free(phase, None) == CellPhase::Freed,
{
}

/// The cells of a daemon, keyed by name.
pub struct Cells<G, D> {
    cache: NameTable<Cell<G, D>>,
}

impl<G: CellCgroup, D: NestedDaemon> Cells<G, D> {
    /// The cells by name.
    pub closed spec fn cells(&self) -> Map<Seq<char>, Cell<G, D>> {
        self.cache@
    }

    /// Every cell is stored under its own name.
    pub closed spec fn wf(&self) -> bool {
        &&& self.cache.wf()
        &&& forall|k: Seq<char>| #[trigger] self.cache@.contains_key(k) ==> self.cache@[k].cell_name() == k
    }

    /// No cells.
    pub fn new() -> (r: Self)
        ensures
            r.wf(),
            r.cells() == Map::<Seq<char>, Cell<G, D>>::empty(),
    {
        Cells { cache: NameTable::new() }
    }

    /// Adds a new cell under `cell_name` and allocates it. A name already in
    /// use is refused and nothing changes. Otherwise the cell is stored
    /// whatever the allocation gave, and the allocation's result returned.
    pub fn allocate<B: CellBackend<G, D>>(&mut self, backend: &mut B, cell_name: CellName, cell_spec: CellSpec) -> (r: Result<&Cell<G, D>, CellsError>)
        requires
            old(self).wf(),
        ensures
            final(self).wf(),
            old(self).cells().contains_key(cell_name@) ==> (r matches Err(e) && e.kind() == CellsErrorKind::CellExists
                && e.cell() == cell_name@ && final(self).cells() == old(self).cells()),
            !old(self).cells().contains_key(cell_name@) ==> {
                &&& final(self).cells().dom() == old(self).cells().dom().insert(cell_name@)
                &&& forall|k: Seq<char>| k != cell_name@ && #[trigger] old(self).cells().contains_key(k)
                    ==> final(self).cells()[k] == old(self).cells()[k]
                &&& final(self).cells()[cell_name@].phase() == phase_after_allocate(CellPhase::Unallocated, err_kind(r))
                &&& final(self).cells()[cell_name@].cell_spec() == cell_spec
                &&& exists|fresh: Cell<G, D>| #[trigger] allocation_outcome::<G, D, B>(
                    fresh,
                    final(self).cells()[cell_name@],
                    as_unit(r),
                ) && fresh.phase() == CellPhase::Unallocated && fresh.cell_name() == cell_name@
                    && fresh.cell_spec() == cell_spec
                &&& r matches Ok(c) ==> *c == final(self).cells()[cell_name@] && c.cell_name() == cell_name@
                &&& r matches Err(e) ==> (e.kind() == CellsErrorKind::FailedToAllocateCell
                    || e.kind() == CellsErrorKind::AbortedAllocateCell) && e.cell() == cell_name@
            },
    {
        if self.cache.contains(cell_name.as_str()) {
            return Err(CellsError::CellExists { cell_name });
        }
        let key = String::from_str(cell_name.as_str());
        let lookup = String::from_str(cell_name.as_str());
        let mut cell = Cell::new(cell_name, cell_spec);
        let ghost fresh = cell;
        let allocated = cell.allocate(backend);
        proof {
            assert(allocation_outcome::<G, D, B>(fresh, cell, as_unit(allocated)));
        }
        let ghost stored = cell;
        let inserted = self.cache.insert(key, cell);
        proof {
            assert(inserted is Ok);
        }
        match allocated {
            Err(e) => Err(e),
            Ok(()) => {
                match self.cache.get(lookup.as_str()) {
                    Some(c) => Ok(c),
                    None => {
                        proof {
                            assert(false);
                        }
                        Err(CellsError::CellNotFound { cell_name: CellName::new(lookup) })
                    },
                }
            },
        }
    }
}


impl<G: CellCgroup, D: NestedDaemon> Cells<G, D> {
    /// Runs `f` on the cell named `cell_name`. A missing cell is reported
    /// not found. When `f` finds the cell not allocated, the cell is dropped
    /// from the store; otherwise the store is unchanged.
    pub fn get<R, F: Fn(&Cell<G, D>) -> Result<R, CellsError>>(&mut self, cell_name: &CellName, f: F) -> (r: Result<R, CellsError>)
        requires
            old(self).wf(),
            forall|c: &Cell<G, D>| f.requires((c,)),
        ensures
            final(self).wf(),
            !old(self).cells().contains_key(cell_name@) ==> (r matches Err(e) && e.kind() == CellsErrorKind::CellNotFound
                && e.cell() == cell_name@ && final(self).cells() == old(self).cells()),
            old(self).cells().contains_key(cell_name@) ==> {
                &&& f.ensures((&old(self).cells()[cell_name@],), r)
                &&& (r matches Err(e) && e.kind() == CellsErrorKind::CellNotAllocated) ==> final(self).cells()
                    == old(self).cells().remove(cell_name@)
                &&& !(r matches Err(e) && e.kind() == CellsErrorKind::CellNotAllocated) ==> final(self).cells()
                    == old(self).cells()
            },
    {
        let res = match self.cache.get(cell_name.as_str()) {
            Some(cell) => f(cell),
            None => {
                return Err(CellsError::CellNotFound { cell_name: copy_name(cell_name) });
            },
        };
        let unallocated = match &res {
            Err(e) => match e.error_kind() {
                CellsErrorKind::CellNotAllocated => true,
                _ => false,
            },
            Ok(_) => false,
        };
        if unallocated {
            let _ = self.cache.remove(cell_name.as_str());
        }
        res
    }

    /// Frees the cell named `cell_name` and drops it from the store. A
    /// missing cell is reported not found. If freeing fails the cell stays,
    /// in the phase it had.
    pub fn free(&mut self, cell_name: &CellName) -> (r: Result<(), CellsError>)
        requires
            old(self).wf(),
        ensures
            final(self).wf(),
            old(self).cells().contains_key(cell_name@) ==> exists|after: Cell<G, D>|
                #[trigger] free_outcome(old(self).cells()[cell_name@], after, false, r) && (r is Err
                ==> final(self).cells() == old(self).cells().insert(cell_name@, after)),
            !old(self).cells().contains_key(cell_name@) ==> (r matches Err(e) && e.kind() == CellsErrorKind::CellNotFound
                && e.cell() == cell_name@ && final(self).cells() == old(self).cells()),
            old(self).cells().contains_key(cell_name@) && r is Ok ==> final(self).cells() == old(self).cells().remove(
                cell_name@,
            ),
            old(self).cells().contains_key(cell_name@) && r is Err ==> {
                &&& final(self).cells().dom() == old(self).cells().dom()
                &&& forall|k: Seq<char>| k != cell_name@ && #[trigger] old(self).cells().contains_key(k)
                    ==> final(self).cells()[k] == old(self).cells()[k]
                &&& final(self).cells()[cell_name@].phase() == old(self).cells()[cell_name@].phase()
                &&& (r matches Err(e) && (e.kind() == CellsErrorKind::FailedToKillCellChildren
                    || e.kind() == CellsErrorKind::FailedToFreeCell) && e.cell() == cell_name@)
            },
    {
        let mut cell = match self.cache.remove(cell_name.as_str()) {
            Ok(c) => c,
            Err(_) => {
                return Err(CellsError::CellNotFound { cell_name: copy_name(cell_name) });
            },
        };
        let ghost removed = self.cache@;
        let ghost removed_cell = cell;
        let freed = cell.free();
        let ghost failed_cell = cell;
        proof {
            assert(free_outcome(removed_cell, cell, false, freed));
        }
        match freed {
            Ok(()) => {
                proof {
                    assert(free_outcome(removed_cell, cell, false, Ok(())));
                }
                Ok(())
            },
            Err(e) => {
                let key = String::from_str(cell.name().as_str());
                let _ = self.cache.insert(key, cell);
                proof {
                    assert(self.cache@.dom() =~= old(self).cells().dom());
                    assert(self.cache@ =~= old(self).cells().insert(cell_name@, failed_cell));
                }
                Err(e)
            },
        }
    }
}

} // verus!
