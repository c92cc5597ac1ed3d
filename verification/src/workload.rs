//! A cell whose executables run directly under the daemon, each prepared
//! with the cell's namespace sharing before it runs.
use vstd::prelude::*;
use crate::cells::{cgroup_deleted, task_added, CellCgroup};
use crate::errors::SystemError;
use crate::executables::{
    killed, launched_prepared, reported_pid, start_outcome, ExecProcess, Executable, ExecutablePhase, ExecutableSpec,
    PreparedLauncher,
};
use crate::namespaces::ExecPrep;
use crate::resources::is_settings_of;
use crate::names::{CellName, ExecutableName};
use crate::namespaces::{is_exec_prep, pre_exec_plan, SharedNamespaces};
use crate::resources::{CgroupSettings, CgroupSpec};
use crate::table::NameTable;

verus! {

/// Builds the cgroup of a cell.
pub trait CgroupFactory<G> {
    /// The cgroup named after the cell, with the given settings.
    fn build(&mut self, cell_name: &CellName, settings: &CgroupSettings) -> G;
}

/// What a cell of this runtime is made from.
#[derive(Debug)]
pub struct WorkloadCellSpec {
    pub name: CellName,
    pub cgroup: CgroupSpec,
    pub sharing: SharedNamespaces,
}

/// The errors of a cell of this runtime.
#[derive(Debug)]
pub enum WorkloadError {
    CellExists { cell_name: CellName },
    CellNotFound { cell_name: CellName },
    CellNotAllocated { cell_name: CellName },
    ExecutableExists { cell_name: CellName, executable_name: ExecutableName },
    ExecutableNotFound { cell_name: CellName, executable_name: ExecutableName },
    FailedToStartExecutable { cell_name: CellName, executable_name: ExecutableName, source: SystemError },
    FailedToAddExecutableToCell { cell_name: CellName, executable_name: ExecutableName, source: SystemError },
    FailedToStopExecutable { cell_name: CellName, executable_name: ExecutableName, source: SystemError },
    FailedToFreeCell { cell_name: CellName, source: SystemError },
}

/// The kinds of [WorkloadError].
#[derive(Debug, Clone, Copy, PartialEq, Eq)]
pub enum WorkloadErrorKind {
    CellExists,
    CellNotFound,
    CellNotAllocated,
    ExecutableExists,
    ExecutableNotFound,
    FailedToStartExecutable,
    FailedToAddExecutableToCell,
    FailedToStopExecutable,
    FailedToFreeCell,
}

impl WorkloadError {
    pub open spec fn kind(&self) -> WorkloadErrorKind {
        match self {
            WorkloadError::CellExists { .. } => WorkloadErrorKind::CellExists,
            WorkloadError::CellNotFound { .. } => WorkloadErrorKind::CellNotFound,
            WorkloadError::CellNotAllocated { .. } => WorkloadErrorKind::CellNotAllocated,
            WorkloadError::ExecutableExists { .. } => WorkloadErrorKind::ExecutableExists,
            WorkloadError::ExecutableNotFound { .. } => WorkloadErrorKind::ExecutableNotFound,
            WorkloadError::FailedToStartExecutable { .. } => WorkloadErrorKind::FailedToStartExecutable,
            WorkloadError::FailedToAddExecutableToCell { .. } => WorkloadErrorKind::FailedToAddExecutableToCell,
            WorkloadError::FailedToStopExecutable { .. } => WorkloadErrorKind::FailedToStopExecutable,
            WorkloadError::FailedToFreeCell { .. } => WorkloadErrorKind::FailedToFreeCell,
        }
    }
}

impl WorkloadError {
    /// The cell the error is about.
    pub open spec fn cell(&self) -> Seq<char> {
        match self {
            WorkloadError::CellExists { cell_name } => cell_name@,
            WorkloadError::CellNotFound { cell_name } => cell_name@,
            WorkloadError::CellNotAllocated { cell_name } => cell_name@,
            WorkloadError::ExecutableExists { cell_name, .. } => cell_name@,
            WorkloadError::ExecutableNotFound { cell_name, .. } => cell_name@,
            WorkloadError::FailedToStartExecutable { cell_name, .. } => cell_name@,
            WorkloadError::FailedToAddExecutableToCell { cell_name, .. } => cell_name@,
            WorkloadError::FailedToStopExecutable { cell_name, .. } => cell_name@,
            WorkloadError::FailedToFreeCell { cell_name, .. } => cell_name@,
        }
    }

    /// The executable the error is about (empty for errors about the cell).
    pub open spec fn executable(&self) -> Seq<char> {
        match self {
            WorkloadError::ExecutableExists { executable_name, .. } => executable_name@,
            WorkloadError::ExecutableNotFound { executable_name, .. } => executable_name@,
            WorkloadError::FailedToStartExecutable { executable_name, .. } => executable_name@,
            WorkloadError::FailedToAddExecutableToCell { executable_name, .. } => executable_name@,
            WorkloadError::FailedToStopExecutable { executable_name, .. } => executable_name@,
            _ => Seq::empty(),
        }
    }
}

/// A factory of type `F` was asked to build the cgroup of the cell named
/// `name` with the builder settings of `spec`, and gave `g`.
pub open spec fn built_cgroup<G, F: CgroupFactory<G>>(name: Seq<char>, spec: CgroupSpec, g: G) -> bool {
    exists|f: &mut F, n: CellName, st: CgroupSettings|
        n@ == name && is_settings_of(st, spec) && call_ensures(F::build, (f, &n, &st), g)
}

/// How starting an executable named `name` in a cell with cgroup `g` ends,
/// given the launcher's answer `a`, with the executable as `exe` and the
/// result `r`: the start error, with the executable left new; or a started
/// process whose reported pid is handed to the cgroup, giving the pid if it
/// joined and the join error if not.
pub open spec fn launch_outcome<G: CellCgroup, P: ExecProcess>(
    name: Seq<char>,
    g: G,
    a: Result<P, SystemError>,
    exe: Executable<P>,
    r: Result<i32, WorkloadError>,
) -> bool {
    &&& (a matches Err(e) ==> exe.phase() == ExecutablePhase::Init && (r matches Err(
        WorkloadError::FailedToStartExecutable { executable_name, source, .. },
    ) && executable_name@ == name && source == e))
    &&& (a matches Ok(p) ==> exe.phase() == ExecutablePhase::Started && exe.process() == Some(p) && reported_pid(
        p,
        exe.started_pid()->0,
    ) && exists|added: Result<(), SystemError>| #[trigger] task_added(g, exe.started_pid()->0, added) && join_result(
        name,
        exe.started_pid()->0,
        added,
        r,
    ))
}

/// The result of starting an executable named `name` whose process has pid
/// `pid`, given the cgroup's answer `added` to taking it in.
pub open spec fn join_result(name: Seq<char>, pid: i32, added: Result<(), SystemError>, r: Result<i32, WorkloadError>) -> bool {
    &&& (added is Ok ==> r == Ok::<i32, WorkloadError>(pid))
    &&& (added matches Err(e) ==> (r matches Err(WorkloadError::FailedToAddExecutableToCell { executable_name, source, .. })
        && executable_name@ == name && source == e))
}

/// Whether some executable of `m` runs.
pub open spec fn any_started<P: ExecProcess>(m: Map<Seq<char>, Executable<P>>) -> bool {
    exists|k: Seq<char>| #[trigger] m.contains_key(k) && m[k].phase() == ExecutablePhase::Started
}

/// Where a cell is in its life.
#[derive(Debug, Clone, Copy, PartialEq, Eq)]
pub enum WorkloadPhase {
    Unallocated,
    Allocated,
    Freed,
}

enum WorkloadState<G, P> {
    Unallocated,
    Allocated { cgroup: G, executables: NameTable<Executable<P>> },
    Freed,
}

/// A cell of this runtime. Its settings never change once made: to change
/// them, free the cell and make a new one.
pub struct WorkloadCell<G, P> {
    spec: WorkloadCellSpec,
    state: WorkloadState<G, P>,
}

fn copy_cell_name(n: &CellName) -> (r: CellName)
    ensures
        r@ == n@,
{
    CellName::new(String::from_str(n.as_str()))
}

fn copy_exe_name(n: &ExecutableName) -> (r: ExecutableName)
    ensures
        r@ == n@,
{
    ExecutableName::new(String::from_str(n.as_str()))
}

impl<G: CellCgroup, P: ExecProcess> WorkloadCell<G, P> {
    /// Its name.
    pub closed spec fn cell_name(&self) -> Seq<char> {
        self.spec.name@
    }

    /// Its namespace sharing.
    pub closed spec fn sharing(&self) -> SharedNamespaces {
        self.spec.sharing
    }

    /// Where it is in its life.
    pub closed spec fn phase(&self) -> WorkloadPhase {
        match self.state {
            WorkloadState::Unallocated => WorkloadPhase::Unallocated,
            WorkloadState::Allocated { .. } => WorkloadPhase::Allocated,
            WorkloadState::Freed => WorkloadPhase::Freed,
        }
    }

    /// Its executables by name (empty unless allocated).
    pub closed spec fn executables(&self) -> Map<Seq<char>, Executable<P>> {
        match self.state {
            WorkloadState::Allocated { executables, .. } => executables@,
            _ => Map::empty(),
        }
    }

    /// The stored executables are well formed and stored under their names.
    pub closed spec fn wf(&self) -> bool {
        match self.state {
            WorkloadState::Allocated { executables, .. } => executables.wf() && forall|k: Seq<char>|
                #[trigger] executables@.contains_key(k) ==> executables@[k].exe_name() == k,
            _ => true,
        }
    }

    /// The settings of its cgroup.
    pub closed spec fn cgroup_spec(&self) -> CgroupSpec {
        self.spec.cgroup
    }

    /// Its cgroup, while allocated.
    pub closed spec fn cgroup(&self) -> Option<G> {
        match self.state {
            WorkloadState::Allocated { cgroup, .. } => Some(cgroup),
            _ => None,
        }
    }

    /// A new cell, not yet allocated.
    pub fn new(spec: WorkloadCellSpec) -> (r: Self)
        ensures
            r.wf(),
            r.cell_name() == spec.name@,
            r.sharing() == spec.sharing,
            r.cgroup_spec() == spec.cgroup,
            r.phase() == WorkloadPhase::Unallocated,
    {
        WorkloadCell { spec, state: WorkloadState::Unallocated }
    }

    /// Its name.
    pub fn name(&self) -> (r: &CellName)
        ensures
            r@ == self.cell_name(),
    {
        &self.spec.name
    }

    /// Builds the cgroup, named after the cell and with the cell's settings.
    /// Does nothing unless the cell is unallocated: a freed cell is never
    /// allocated again.
    pub fn allocate<F: CgroupFactory<G>>(&mut self, factory: &mut F)
        requires
            old(self).wf(),
        ensures
            final(self).wf(),
            final(self).cell_name() == old(self).cell_name(),
            final(self).sharing() == old(self).sharing(),
            final(self).cgroup_spec() == old(self).cgroup_spec(),
            old(self).phase() == WorkloadPhase::Unallocated ==> final(self).phase() == WorkloadPhase::Allocated
                && final(self).executables() == Map::<Seq<char>, Executable<P>>::empty()
                && built_cgroup::<G, F>(old(self).cell_name(), old(self).cgroup_spec(), final(self).cgroup()->0),
            old(self).phase() != WorkloadPhase::Unallocated ==> *final(self) == *old(self),
    {
        match self.state {
            WorkloadState::Unallocated => {},
            _ => {
                return;
            },
        }
        let settings = self.spec.cgroup.settings();
        let cgroup = factory.build(&self.spec.name, &settings);
        proof {
            assert(built_cgroup::<G, F>(self.spec.name@, self.spec.cgroup, cgroup));
        }
        self.state = WorkloadState::Allocated { cgroup, executables: NameTable::new() };
    }

    /// Deletes the cgroup; the cell is then freed, whatever it was before.
    /// A failure to delete leaves it as it was.
    pub fn free(&mut self) -> (r: Result<(), WorkloadError>)
        requires
            old(self).wf(),
        ensures
            final(self).wf(),
            final(self).cell_name() == old(self).cell_name(),
            final(self).sharing() == old(self).sharing(),
            final(self).cgroup_spec() == old(self).cgroup_spec(),
            old(self).phase() != WorkloadPhase::Allocated ==> r is Ok,
            r is Ok ==> final(self).phase() == WorkloadPhase::Freed,
            r is Err ==> old(self).phase() == WorkloadPhase::Allocated,
            old(self).phase() == WorkloadPhase::Allocated ==> exists|d: Result<(), SystemError>|
                #[trigger] cgroup_deleted(old(self).cgroup()->0, d) && (d is Ok ==> r is Ok) && (d matches Err(e)
                ==> (r matches Err(WorkloadError::FailedToFreeCell { cell_name, source }) && cell_name@
                == old(self).cell_name() && source == e) && final(self).phase() == WorkloadPhase::Allocated
                && final(self).cgroup() == old(self).cgroup() && final(self).executables()
                == old(self).executables()),
    {
        let ghost before = *self;
        let deleted = match &self.state {
            WorkloadState::Allocated { cgroup, .. } => {
                let d = cgroup.delete();
                proof {
                    assert(cgroup_deleted(before.cgroup()->0, d));
                }
                d
            },
            _ => Ok(()),
        };
        match deleted {
            Ok(()) => {
                self.state = WorkloadState::Freed;
                Ok(())
            },
            Err(e) => {
                let r = Err(WorkloadError::FailedToFreeCell { cell_name: copy_cell_name(&self.spec.name), source: e });
                proof {
                    assert(r matches Err(WorkloadError::FailedToFreeCell { cell_name, source }) && cell_name@
                        == before.cell_name() && source == e);
                }
                r
            },
        }
    }

    /// Whether the cgroup is in the v2 hierarchy; `None` unless allocated.
    pub fn v2(&self) -> (r: Option<bool>)
        ensures
            r is Some <==> self.phase() == WorkloadPhase::Allocated,
            r matches Some(b) ==> call_ensures(G::v2, (&self.cgroup()->0,), b),
    {
        match &self.state {
            WorkloadState::Allocated { cgroup, .. } => Some(cgroup.v2()),
            _ => None,
        }
    }

    /// Starts an executable in the cell and gives its pid. The cell must be
    /// allocated and the name unused. The executable's command goes to the
    /// launcher with a preparation: the first running executable of a cell
    /// unshares the namespaces the cell does not share (and mounts `proc`
    /// when it shares neither pid nor mount); later ones are not prepared.
    /// The started process's pid is added to the cell's cgroup. The
    /// executable stays in the cell even if it fails to start or to join
    /// the cgroup.
    pub fn start_executable<L: PreparedLauncher<P>>(&mut self, launcher: &mut L, spec: ExecutableSpec) -> (r: Result<i32, WorkloadError>)
        requires
            old(self).wf(),
        ensures
            final(self).wf(),
            final(self).cell_name() == old(self).cell_name(),
            final(self).sharing() == old(self).sharing(),
            final(self).cgroup_spec() == old(self).cgroup_spec(),
            final(self).phase() == old(self).phase(),
            r matches Err(e) ==> e.cell() == old(self).cell_name(),
            old(self).phase() != WorkloadPhase::Allocated ==> (r matches Err(e) && e.kind()
                == WorkloadErrorKind::CellNotAllocated && final(self).executables() == old(self).executables()),
            final(self).cgroup() == old(self).cgroup(),
            old(self).phase() == WorkloadPhase::Allocated && old(self).executables().contains_key(spec.name@) ==> (
            r matches Err(e) && e.kind() == WorkloadErrorKind::ExecutableExists && e.executable() == spec.name@
                && final(self).executables() == old(self).executables()),
            old(self).phase() == WorkloadPhase::Allocated && !old(self).executables().contains_key(spec.name@) ==> {
                let exe = final(self).executables()[spec.name@];
                &&& final(self).executables().dom() == old(self).executables().dom().insert(spec.name@)
                &&& forall|k: Seq<char>| k != spec.name@ && #[trigger] old(self).executables().contains_key(k)
                    ==> final(self).executables()[k] == old(self).executables()[k]
                &&& exe.command() == spec.command
                &&& exe.exe_name() == spec.name@
                &&& exists|prep: ExecPrep, a: Result<P, SystemError>|
                    #![trigger launched_prepared::<P, L>(spec.command, prep, a)]
                    launched_prepared::<P, L>(spec.command, prep, a) && is_exec_prep(
                        prep,
                        old(self).sharing(),
                        any_started(old(self).executables()),
                    ) && launch_outcome(spec.name@, old(self).cgroup()->0, a, exe, r)
            },
    {
        let sharing = self.spec.sharing;
        let cell_name = copy_cell_name(&self.spec.name);
        match &mut self.state {
            WorkloadState::Allocated { cgroup, executables } => {
                if executables.contains(spec.name.as_str()) {
                    return Err(WorkloadError::ExecutableExists { cell_name, executable_name: spec.name });
                }
                let ghost before = executables@;
                let running = executables.any(|e: &Executable<P>| -> (b: bool)
                    ensures
                        b == (e.phase() == ExecutablePhase::Started),
                    { e.pid().is_some() });
                proof {
                    if !running {
                        assert forall|k: Seq<char>| #[trigger] before.contains_key(k) implies before[k].phase()
                            != ExecutablePhase::Started by {}
                    }
                }
                let prep = pre_exec_plan(&sharing, running);
                let name = copy_exe_name(&spec.name);
                let key = String::from_str(spec.name.as_str());
                let mut exe = Executable::new(spec);
                let ghost fresh = exe;
                let started = exe.start_prepared(launcher, &prep);
                let ghost a = choose|a: Result<P, SystemError>|
                    #[trigger] launched_prepared::<P, L>(fresh.command(), prep, a) && start_outcome(exe, a, started);
                let ghost g = *cgroup;
                let ghost stored = exe;
                let ghost spec_name = name@;
                let pid = exe.pid();
                let _ = executables.insert(key, exe);
                match started {
                    Err(e) => {
                        let r = Err(WorkloadError::FailedToStartExecutable { cell_name, executable_name: name, source: e });
                        proof {
                            assert(launch_outcome(spec_name, g, a, stored, r));
                        }
                        r
                    },
                    Ok(()) => {
                        let pid = match pid {
                            Some(p) => p,
                            None => {
                                proof {
                                    assert(false);
                                }
                                0
                            },
                        };
                        let added = cgroup.add_task(pid);
                        proof {
                            assert(task_added(*cgroup, pid, added));
                        }
                        let r = match added {
                            Ok(()) => Ok(pid),
                            Err(e) => Err(WorkloadError::FailedToAddExecutableToCell { cell_name, executable_name: name, source: e }),
                        };
                        proof {
                            assert(join_result(spec_name, pid, added, r));
                            assert(launch_outcome(spec_name, g, a, stored, r));
                        }
                        r
                    },
                }
            },
            _ => Err(WorkloadError::CellNotAllocated { cell_name }),
        }
    }

    /// Stops an executable of the cell, drops it and gives its exit status
    /// (none if it never started). The cell must be allocated and hold the
    /// executable; a failure to stop it leaves it in the cell.
    pub fn stop_executable(&mut self, executable_name: &ExecutableName) -> (r: Result<Option<i32>, WorkloadError>)
        requires
            old(self).wf(),
        ensures
            final(self).wf(),
            final(self).cell_name() == old(self).cell_name(),
            final(self).sharing() == old(self).sharing(),
            final(self).cgroup_spec() == old(self).cgroup_spec(),
            final(self).cgroup() == old(self).cgroup(),
            final(self).phase() == old(self).phase(),
            r matches Err(e) ==> e.cell() == old(self).cell_name(),
            old(self).phase() != WorkloadPhase::Allocated ==> (r matches Err(e) && e.kind()
                == WorkloadErrorKind::CellNotAllocated && final(self).executables() == old(self).executables()),
            old(self).phase() == WorkloadPhase::Allocated && !old(self).executables().contains_key(executable_name@)
                ==> (r matches Err(e) && e.kind() == WorkloadErrorKind::ExecutableNotFound && e.executable()
                == executable_name@ && final(self).executables() == old(self).executables()),
            old(self).phase() == WorkloadPhase::Allocated && old(self).executables().contains_key(executable_name@)
                ==> {
                let before = old(self).executables()[executable_name@];
                &&& (r is Ok ==> final(self).executables() == old(self).executables().remove(executable_name@))
                &&& (before.phase() == ExecutablePhase::Init ==> r == Ok::<Option<i32>, WorkloadError>(None))
                &&& (before.phase() == ExecutablePhase::Stopped ==> r == Ok::<Option<i32>, WorkloadError>(
                    before.exit_status()))
                &&& (before.phase() == ExecutablePhase::Started && r is Ok ==> (r matches Ok(Some(s)) && killed(
                    before.process()->0,
                    Ok(s),
                )))
                &&& (r is Err ==> (r matches Err(WorkloadError::FailedToStopExecutable { executable_name: n, source, .. })
                    && n@ == executable_name@ && killed(before.process()->0, Err(source)))
                    && final(self).executables().dom() == old(self).executables().dom()
                    && final(self).executables()[executable_name@].phase() == ExecutablePhase::Started
                    && final(self).executables()[executable_name@].started_pid() == before.started_pid())
            },
    {
        let cell_name = copy_cell_name(&self.spec.name);
        match &mut self.state {
            WorkloadState::Allocated { executables, .. } => {
                let mut exe = match executables.remove(executable_name.as_str()) {
                    Ok(x) => x,
                    Err(_) => {
                        return Err(WorkloadError::ExecutableNotFound { cell_name, executable_name: copy_exe_name(executable_name) });
                    },
                };
                let ghost held = exe;
                let stopped = exe.kill();
                match stopped {
                    Ok(status) => Ok(status),
                    Err(e) => {
                        let key = String::from_str(exe.name().as_str());
                        let _ = executables.insert(key, exe);
                        proof {
                            assert(executables@.dom() =~= old(self).executables().dom());
                        }
                        Err(WorkloadError::FailedToStopExecutable { cell_name, executable_name: copy_exe_name(executable_name), source: e })
                    },
                }
            },
            _ => Err(WorkloadError::CellNotAllocated { cell_name }),
        }
    }
}

/// The cells of this runtime, keyed by name.
pub struct WorkloadCells<G, P> {
    cache: NameTable<WorkloadCell<G, P>>,
}

impl<G: CellCgroup, P: ExecProcess> WorkloadCells<G, P> {
    /// The cells by name.
    pub closed spec fn cells(&self) -> Map<Seq<char>, WorkloadCell<G, P>> {
        self.cache@
    }

    /// Every cell is well formed and stored under its own name.
    pub closed spec fn wf(&self) -> bool {
        &&& self.cache.wf()
        &&& forall|k: Seq<char>| #[trigger] self.cache@.contains_key(k) ==> self.cache@[k].cell_name() == k
            && self.cache@[k].wf()
    }

    /// No cells.
    pub fn new() -> (r: Self)
        ensures
            r.wf(),
            r.cells() == Map::<Seq<char>, WorkloadCell<G, P>>::empty(),
    {
        WorkloadCells { cache: NameTable::new() }
    }

    /// Adds a new cell and allocates it: its cgroup is built. A name already
    /// in use is refused and nothing changes; a new name always succeeds.
    pub fn allocate<F: CgroupFactory<G>>(&mut self, factory: &mut F, spec: WorkloadCellSpec) -> (r: Result<&WorkloadCell<G, P>, WorkloadError>)
        requires
            old(self).wf(),
        ensures
            final(self).wf(),
            old(self).cells().contains_key(spec.name@) ==> (r matches Err(e) && e.kind() == WorkloadErrorKind::CellExists
                && e.cell() == spec.name@ && final(self).cells() == old(self).cells()),
            !old(self).cells().contains_key(spec.name@) ==> (r matches Ok(c) && {
                &&& *c == final(self).cells()[spec.name@]
                &&& final(self).cells().dom() == old(self).cells().dom().insert(spec.name@)
                &&& forall|k: Seq<char>| k != spec.name@ && #[trigger] old(self).cells().contains_key(k)
                    ==> final(self).cells()[k] == old(self).cells()[k]
                &&& c.cell_name() == spec.name@
                &&& c.sharing() == spec.sharing
                &&& c.cgroup_spec() == spec.cgroup
                &&& c.phase() == WorkloadPhase::Allocated
                &&& c.executables() == Map::<Seq<char>, Executable<P>>::empty()
                &&& built_cgroup::<G, F>(spec.name@, spec.cgroup, c.cgroup()->0)
            }),
    {
        if self.cache.contains(spec.name.as_str()) {
            return Err(WorkloadError::CellExists { cell_name: spec.name });
        }
        let key = String::from_str(spec.name.as_str());
        let lookup = String::from_str(spec.name.as_str());
        let mut cell = WorkloadCell::new(spec);
        cell.allocate(factory);
        let inserted = self.cache.insert(key, cell);
        proof {
            assert(inserted is Ok);
        }
        match self.cache.get(lookup.as_str()) {
            Some(c) => Ok(c),
            None => {
                proof {
                    assert(false);
                }
                Err(WorkloadError::CellNotFound { cell_name: CellName::new(lookup) })
            },
        }
    }

    /// Runs `f` on the cell named `cell_name`. A missing cell is reported
    /// not found. When `f` finds the cell not allocated, the cell is dropped
    /// from the store; otherwise the store is unchanged.
    pub fn get<R, F: Fn(&WorkloadCell<G, P>) -> Result<R, WorkloadError>>(&mut self, cell_name: &CellName, f: F) -> (r: Result<R, WorkloadError>)
        requires
            old(self).wf(),
            forall|c: &WorkloadCell<G, P>| f.requires((c,)),
        ensures
            final(self).wf(),
            !old(self).cells().contains_key(cell_name@) ==> (r matches Err(e) && e.kind()
                == WorkloadErrorKind::CellNotFound && e.cell() == cell_name@ && final(self).cells()
                == old(self).cells()),
            old(self).cells().contains_key(cell_name@) ==> {
                &&& f.ensures((&old(self).cells()[cell_name@],), r)
                &&& (r matches Err(e) && e.kind() == WorkloadErrorKind::CellNotAllocated) ==> final(self).cells()
                    == old(self).cells().remove(cell_name@)
                &&& !(r matches Err(e) && e.kind() == WorkloadErrorKind::CellNotAllocated) ==> final(self).cells()
                    == old(self).cells()
            },
    {
        let res = match self.cache.get(cell_name.as_str()) {
            Some(cell) => f(cell),
            None => {
                return Err(WorkloadError::CellNotFound { cell_name: copy_cell_name(cell_name) });
            },
        };
        let unallocated = match &res {
            Err(WorkloadError::CellNotAllocated { .. }) => true,
            _ => false,
        };
        if unallocated {
            let _ = self.cache.remove(cell_name.as_str());
        }
        res
    }

    /// Frees the cell named `cell_name` (its cgroup is deleted) and drops it
    /// from the store. A missing cell is reported not found; if the cgroup
    /// cannot be deleted the cell stays, allocated.
    pub fn free(&mut self, cell_name: &CellName) -> (r: Result<(), WorkloadError>)
        requires
            old(self).wf(),
        ensures
            final(self).wf(),
            !old(self).cells().contains_key(cell_name@) ==> (r matches Err(e) && e.kind()
                == WorkloadErrorKind::CellNotFound && e.cell() == cell_name@ && final(self).cells()
                == old(self).cells()),
            old(self).cells().contains_key(cell_name@) && r is Ok ==> final(self).cells() == old(self).cells().remove(
                cell_name@,
            ),
            old(self).cells().contains_key(cell_name@) && old(self).cells()[cell_name@].phase()
                == WorkloadPhase::Allocated ==> exists|d: Result<(), SystemError>|
                #[trigger] cgroup_deleted(old(self).cells()[cell_name@].cgroup()->0, d) && (d is Ok ==> r is Ok)
                && (d matches Err(e) ==> (r matches Err(WorkloadError::FailedToFreeCell { cell_name: n, source })
                && n@ == cell_name@ && source == e) && final(self).cells().dom() == old(self).cells().dom()
                && final(self).cells()[cell_name@].phase() == WorkloadPhase::Allocated),
            old(self).cells().contains_key(cell_name@) && old(self).cells()[cell_name@].phase()
                != WorkloadPhase::Allocated ==> r is Ok,
    {
        let mut cell = match self.cache.remove(cell_name.as_str()) {
            Ok(c) => c,
            Err(_) => {
                return Err(WorkloadError::CellNotFound { cell_name: copy_cell_name(cell_name) });
            },
        };
        let freed = cell.free();
        match freed {
            Ok(()) => Ok(()),
            Err(e) => {
                let key = String::from_str(cell.name().as_str());
                let _ = self.cache.insert(key, cell);
                proof {
                    assert(self.cache@.dom() =~= old(self).cells().dom());
                }
                Err(e)
            },
        }
    }
}

} // verus!
