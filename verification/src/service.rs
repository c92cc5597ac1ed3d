//! The cell service: allocates and frees cells, and starts and stops
//! executables either here or, for a nested cell, by handing the request
//! on to the daemon running in that cell.
use vstd::prelude::*;
use std::collections::VecDeque;
use crate::cell_path::names_view;
use crate::cells::{
    allocation_outcome, as_unit, err_kind, free_outcome, phase_after_allocate, Cell, CellBackend, CellCgroup, CellPhase, CellSpec, Cells, CellsError,
    CellsErrorKind, NestedDaemon,
};
use crate::errors::StatusCode;
use crate::executables::{
    killed, launched, reported_pid, CommandSpec, ExecProcess, Executable, ExecutablePhase, Executables, ExecutablesError, ExecutablesErrorKind, Launcher,
};
use crate::names::{CellName, ExecutableName};
use crate::requests::{
    ValidatedCellServiceFreeRequest, ValidatedCellServiceStartRequest, ValidatedCellServiceStopRequest,
    ValidatedExecutable,
};
use crate::text::{join_with, seq_join, views_of};

verus! {

/// The answer to an allocation: the cell's name and whether its cgroup is
/// in the v2 hierarchy.
#[derive(Debug, Clone)]
pub struct AllocateCellResponse {
    pub cell_name: String,
    pub cgroup_v2: bool,
}

/// Where a start or stop request is served.
pub enum Routed<T, C> {
    /// Served by this daemon.
    Here(T),
    /// To be handed on to the daemon of the child cell `child`, reached with
    /// `client_config`, with the rest of the path as its cell name.
    Forward { child: CellName, client_config: C, cell_name: String },
}

/// The errors of the cell service.
#[derive(Debug)]
pub enum CellsServiceError {
    CellsError(CellsError),
    ExecutablesError(ExecutablesError),
}

impl CellsError {
    /// The status a client is answered with: an existing cell is a
    /// conflict, a missing or unallocated one is not found, anything else
    /// an internal error.
    pub fn status_code(&self) -> (r: StatusCode)
        ensures
            self.kind() == CellsErrorKind::CellExists ==> r == StatusCode::AlreadyExists,
            (self.kind() == CellsErrorKind::CellNotFound || self.kind() == CellsErrorKind::CellNotAllocated)
                ==> r == StatusCode::NotFound,
            (self.kind() == CellsErrorKind::FailedToAllocateCell || self.kind() == CellsErrorKind::AbortedAllocateCell
                || self.kind() == CellsErrorKind::FailedToKillCellChildren || self.kind()
                == CellsErrorKind::FailedToFreeCell) ==> r == StatusCode::Internal,
    {
        match self {
            CellsError::CellExists { .. } => StatusCode::AlreadyExists,
            CellsError::CellNotFound { .. } => StatusCode::NotFound,
            CellsError::CellNotAllocated { .. } => StatusCode::NotFound,
            _ => StatusCode::Internal,
        }
    }
}

impl ExecutablesError {
    /// The status a client is answered with: an existing executable is a
    /// conflict, a missing one is not found, a failure to start or stop an
    /// internal error.
    pub fn status_code(&self) -> (r: StatusCode)
        ensures
            self.kind() == ExecutablesErrorKind::ExecutableExists ==> r == StatusCode::AlreadyExists,
            self.kind() == ExecutablesErrorKind::ExecutableNotFound ==> r == StatusCode::NotFound,
            (self.kind() == ExecutablesErrorKind::FailedToStartExecutable || self.kind()
                == ExecutablesErrorKind::FailedToStopExecutable) ==> r == StatusCode::Internal,
    {
        match self {
            ExecutablesError::ExecutableExists { .. } => StatusCode::AlreadyExists,
            ExecutablesError::ExecutableNotFound { .. } => StatusCode::NotFound,
            _ => StatusCode::Internal,
        }
    }
}

impl CellsServiceError {
    /// The status of the underlying error.
    pub fn status_code(&self) -> (r: StatusCode)
        ensures
            (self matches CellsServiceError::CellsError(e) && e.kind() == CellsErrorKind::CellExists)
                ==> r == StatusCode::AlreadyExists,
            (self matches CellsServiceError::ExecutablesError(e) && e.kind()
                == ExecutablesErrorKind::ExecutableExists) ==> r == StatusCode::AlreadyExists,
            (self matches CellsServiceError::CellsError(e) && (e.kind() == CellsErrorKind::CellNotFound
                || e.kind() == CellsErrorKind::CellNotAllocated)) ==> r == StatusCode::NotFound,
            (self matches CellsServiceError::ExecutablesError(e) && e.kind()
                == ExecutablesErrorKind::ExecutableNotFound) ==> r == StatusCode::NotFound,
    {
        match self {
            CellsServiceError::CellsError(e) => e.status_code(),
            CellsServiceError::ExecutablesError(e) => e.status_code(),
        }
    }
}

/// The names of a path joined with `/`.
fn join_path(names: &VecDeque<CellName>) -> (r: String)
    ensures
        r@ == seq_join(names_view(names@), "/"@),
{
    let mut parts: Vec<String> = Vec::new();
    let mut i: usize = 0;
    while i < names.len()
        invariant
            i <= names@.len(),
            views_of(parts@) == names_view(names@).take(i as int),
        decreases names@.len() - i,
    {
        let name = String::from_str(names[i].as_str());
        let ghost before = parts@;
        parts.push(name);
        proof {
            assert(parts@ =~= before.push(name));
            assert(views_of(parts@) =~= views_of(before).push(names@[i as int]@));
            assert(names_view(names@).take(i + 1) =~= names_view(names@).take(i as int).push(names@[i as int]@));
        }
        i = i + 1;
    }
    proof {
        assert(names_view(names@).take(names@.len() as int) =~= names_view(names@));
    }
    join_with(&parts, "/")
}

/// The cells and executables of one daemon.
pub struct CellService<G, D, P> {
    cells: Cells<G, D>,
    executables: Executables<P>,
}

/// `c` runs the command line `line` with `sh -c`.
pub open spec fn is_shell_command(c: CommandSpec, line: Seq<char>) -> bool {
    &&& c.program@ == "sh"@
    &&& c.args@.len() == 2
    &&& c.args@[0]@ == "-c"@
    &&& c.args@[1]@ == line
}

impl<G: CellCgroup, D: NestedDaemon, P: ExecProcess> CellService<G, D, P> {
    /// The cells of the service.
    pub closed spec fn cells(&self) -> Map<Seq<char>, Cell<G, D>> {
        self.cells.cells()
    }

    /// The executables started here.
    pub closed spec fn executables(&self) -> Map<Seq<char>, crate::executables::Executable<P>> {
        self.executables.executables()
    }

    /// The stores are well formed.
    pub closed spec fn wf(&self) -> bool {
        self.cells.wf() && self.executables.wf()
    }

    /// No cells and no executables.
    pub fn new() -> (r: Self)
        ensures
            r.wf(),
            r.cells() == Map::<Seq<char>, Cell<G, D>>::empty(),
            r.executables() == Map::<Seq<char>, crate::executables::Executable<P>>::empty(),
    {
        CellService { cells: Cells::new(), executables: Executables::new() }
    }

    /// Allocates a new cell and answers with its name and cgroup hierarchy.
    pub fn allocate<B: CellBackend<G, D>>(&mut self, backend: &mut B, cell_name: CellName, cell_spec: CellSpec) -> (r: Result<AllocateCellResponse, CellsError>)
        requires
            old(self).wf(),
        ensures
            final(self).wf(),
            final(self).executables() == old(self).executables(),
            old(self).cells().contains_key(cell_name@) ==> (r matches Err(e) && e.kind() == CellsErrorKind::CellExists
                && final(self).cells() == old(self).cells()),
            !old(self).cells().contains_key(cell_name@) ==> {
                &&& final(self).cells().dom() == old(self).cells().dom().insert(cell_name@)
                &&& (r matches Ok(resp) ==> resp.cell_name@ == cell_name@
                    && final(self).cells()[cell_name@].phase() == CellPhase::Allocated)
                &&& (r matches Err(e) ==> (e.kind() == CellsErrorKind::FailedToAllocateCell
                    || e.kind() == CellsErrorKind::AbortedAllocateCell) && e.cell() == cell_name@)
                &&& final(self).cells()[cell_name@].phase() == phase_after_allocate(CellPhase::Unallocated, err_kind(r))
                &&& exists|fresh: Cell<G, D>| #[trigger] allocation_outcome::<G, D, B>(
                    fresh,
                    final(self).cells()[cell_name@],
                    as_unit(r),
                ) && fresh.phase() == CellPhase::Unallocated && fresh.cell_name() == cell_name@
                    && fresh.cell_spec() == cell_spec
                &&& (r matches Ok(resp) ==> call_ensures(
                    G::v2,
                    (&final(self).cells()[cell_name@].cgroup()->0,),
                    resp.cgroup_v2,
                ))
            },
    {
        let ghost name = cell_name@;
        let ghost before = self.cells();
        let allocated = self.cells.allocate(backend, cell_name, cell_spec);
        let cell = match allocated {
            Ok(c) => {
                proof {
                    assert(err_kind(allocated) == None::<CellsErrorKind>);
                    if !before.contains_key(name) {
                        assert(c.phase() == CellPhase::Allocated);
                        assert(c.cell_name() == name);
                    }
                }
                c
            },
            Err(e) => {
                return Err(e);
            },
        };
        let v2 = match cell.v2() {
            Some(b) => b,
            None => {
                proof {
                    assert(false);
                }
                false
            },
        };
        Ok(AllocateCellResponse { cell_name: String::from_str(cell.name().as_str()), cgroup_v2: v2 })
    }

    /// Frees a cell.
    pub fn free(&mut self, request: ValidatedCellServiceFreeRequest) -> (r: Result<(), CellsError>)
        requires
            old(self).wf(),
        ensures
            final(self).wf(),
            final(self).executables() == old(self).executables(),
            old(self).cells().contains_key(request.cell_name@) ==> exists|after: Cell<G, D>|
                #[trigger] free_outcome(old(self).cells()[request.cell_name@], after, false, r) && (r is Err
                ==> final(self).cells() == old(self).cells().insert(request.cell_name@, after)),
            !old(self).cells().contains_key(request.cell_name@) ==> (r matches Err(e)
                && e.kind() == CellsErrorKind::CellNotFound && e.cell() == request.cell_name@
                && final(self).cells() == old(self).cells()),
            old(self).cells().contains_key(request.cell_name@) && r is Ok ==> final(self).cells()
                == old(self).cells().remove(request.cell_name@),
            old(self).cells().contains_key(request.cell_name@) && r is Err ==> {
                &&& final(self).cells().dom() == old(self).cells().dom()
                &&& forall|k: Seq<char>| k != request.cell_name@ && #[trigger] old(self).cells().contains_key(k)
                    ==> final(self).cells()[k] == old(self).cells()[k]
                &&& final(self).cells()[request.cell_name@].phase() == old(self).cells()[request.cell_name@].phase()
                &&& (r matches Err(e) && (e.kind() == CellsErrorKind::FailedToKillCellChildren
                    || e.kind() == CellsErrorKind::FailedToFreeCell) && e.cell() == request.cell_name@)
            },
    {
        self.cells.free(&request.cell_name)
    }

    /// Starts an executable. An empty cell path means this daemon's own
    /// cell: the executable is started here and its pid answered. Otherwise
    /// the first name on the path is a child cell, whose daemon gets the
    /// request with the rest of the path.
    pub fn start<L: Launcher<P>>(&mut self, launcher: &mut L, request: ValidatedCellServiceStartRequest) -> (r: Result<Routed<i32, D::Config>, CellsServiceError>)
        requires
            old(self).wf(),
        ensures
            final(self).wf(),
            request.cell_name@.len() == 0 ==> {
                &&& final(self).cells() == old(self).cells()
                &&& old(self).executables().contains_key(request.executable.name@) ==> (r matches Err(
                    CellsServiceError::ExecutablesError(e)) && e.kind() == ExecutablesErrorKind::ExecutableExists
                    && final(self).executables() == old(self).executables())
                &&& !old(self).executables().contains_key(request.executable.name@) ==> {
                    &&& (r is Ok ==> final(self).executables().dom() == old(self).executables().dom().insert(
                        request.executable.name@) && final(self).executables()[request.executable.name@].phase()
                        == ExecutablePhase::Started && (r matches Ok(Routed::Here(pid)) && {
                            let x = final(self).executables()[request.executable.name@];
                            &&& x.started_pid() == Some(pid)
                            &&& reported_pid(x.process()->0, pid)
                            &&& exists|c: CommandSpec| #[trigger] launched::<P, L>(c, Ok(x.process()->0))
                                && is_shell_command(c, request.executable.command@)
                        }))
                    &&& (r is Err ==> (r matches Err(CellsServiceError::ExecutablesError(
                        ExecutablesError::FailedToStartExecutable { source, .. },
                    )) && exists|c: CommandSpec| #[trigger] launched::<P, L>(c, Err(source))
                        && is_shell_command(c, request.executable.command@)) && final(self).executables() == old(
                        self).executables())
                }
            },
            request.cell_name@.len() > 0 ==> {
                let child = request.cell_name@[0]@;
                &&& final(self).executables() == old(self).executables()
                &&& !old(self).cells().contains_key(child) ==> (r matches Err(CellsServiceError::CellsError(e))
                    && e.kind() == CellsErrorKind::CellNotFound && final(self).cells() == old(self).cells())
                &&& old(self).cells().contains_key(child) && old(self).cells()[child].phase() == CellPhase::Allocated
                    ==> (r matches Ok(Routed::Forward { child: c, client_config: cfg, cell_name: rest })
                    && c@ == child && rest@ == seq_join(names_view(request.cell_name@.drop_first()), "/"@)
                    && call_ensures(D::client_config, (&old(self).cells()[child].daemon()->0,), cfg)
                    && final(self).cells() == old(self).cells())
                &&& old(self).cells().contains_key(child) && old(self).cells()[child].phase() != CellPhase::Allocated
                    ==> (r matches Err(CellsServiceError::CellsError(e)) && e.kind() == CellsErrorKind::CellNotAllocated
                    && final(self).cells() == old(self).cells().remove(child))
            },
    {
        let ValidatedCellServiceStartRequest { cell_name, executable } = request;
        let mut cell_name = cell_name;
        if cell_name.len() == 0 {
            let spec = executable.into_spec();
            let started = self.executables.start(launcher, spec);
            match started {
                Ok(exe) => {
                    let pid = match exe.pid() {
                        Some(p) => p,
                        None => {
                            proof {
                                assert(false);
                            }
                            0
                        },
                    };
                    Ok(Routed::Here(pid))
                },
                Err(e) => Err(CellsServiceError::ExecutablesError(e)),
            }
        } else {
            let ghost path = cell_name@;
            let child = match cell_name.pop_front() {
                Some(c) => c,
                None => {
                    proof {
                        assert(false);
                    }
                    return Err(CellsServiceError::CellsError(CellsError::CellNotFound { cell_name: CellName::new(String::new()) }));
                },
            };
            proof {
                assert(cell_name@ =~= path.drop_first());
            }
            let config = self.cells.get(&child, |cell: &Cell<G, D>| -> (r: Result<D::Config, CellsError>)
                ensures
                    cell.phase() == CellPhase::Allocated ==> (r matches Ok(c) && call_ensures(
                        D::client_config,
                        (&cell.daemon()->0,),
                        c,
                    )),
                    cell.phase() != CellPhase::Allocated ==> (r matches Err(e)
                        && e.kind() == CellsErrorKind::CellNotAllocated),
                { cell.client_config() });
            match config {
                Ok(client_config) => {
                    let rest = join_path(&cell_name);
                    Ok(Routed::Forward { child, client_config, cell_name: rest })
                },
                Err(e) => Err(CellsServiceError::CellsError(e)),
            }
        }
    }

    /// Stops an executable. An empty cell path means this daemon's own
    /// cell: the executable is stopped here. Otherwise the first name on the
    /// path is a child cell, whose daemon gets the request with the rest of
    /// the path.
    pub fn stop(&mut self, request: ValidatedCellServiceStopRequest) -> (r: Result<Routed<(), D::Config>, CellsServiceError>)
        requires
            old(self).wf(),
        ensures
            final(self).wf(),
            request.cell_name@.len() == 0 ==> {
                &&& final(self).cells() == old(self).cells()
                &&& !old(self).executables().contains_key(request.executable_name@) ==> (r matches Err(
                    CellsServiceError::ExecutablesError(e)) && e.kind() == ExecutablesErrorKind::ExecutableNotFound
                    && final(self).executables() == old(self).executables())
                &&& (r is Ok ==> (r matches Ok(Routed::Here(_))) && final(self).executables()
                    == old(self).executables().remove(request.executable_name@))
                &&& old(self).executables().contains_key(request.executable_name@) && old(self).executables()[
                    request.executable_name@].phase() == ExecutablePhase::Started ==> {
                    let p = old(self).executables()[request.executable_name@].process()->0;
                    &&& (r is Ok ==> exists|s: i32| #[trigger] killed(p, Ok(s)))
                    &&& (r is Err ==> (r matches Err(CellsServiceError::ExecutablesError(
                        ExecutablesError::FailedToStopExecutable { source, .. },
                    )) && killed(p, Err(source))))
                }
            },
            request.cell_name@.len() > 0 ==> {
                let child = request.cell_name@[0]@;
                &&& final(self).executables() == old(self).executables()
                &&& !old(self).cells().contains_key(child) ==> (r matches Err(CellsServiceError::CellsError(e))
                    && e.kind() == CellsErrorKind::CellNotFound && final(self).cells() == old(self).cells())
                &&& old(self).cells().contains_key(child) && old(self).cells()[child].phase() == CellPhase::Allocated
                    ==> (r matches Ok(Routed::Forward { child: c, client_config: cfg, cell_name: rest })
                    && c@ == child && rest@ == seq_join(names_view(request.cell_name@.drop_first()), "/"@)
                    && call_ensures(D::client_config, (&old(self).cells()[child].daemon()->0,), cfg)
                    && final(self).cells() == old(self).cells())
                &&& old(self).cells().contains_key(child) && old(self).cells()[child].phase() != CellPhase::Allocated
                    ==> (r matches Err(CellsServiceError::CellsError(e)) && e.kind() == CellsErrorKind::CellNotAllocated
                    && final(self).cells() == old(self).cells().remove(child))
            },
    {
        let ValidatedCellServiceStopRequest { cell_name, executable_name } = request;
        let mut cell_name = cell_name;
        if cell_name.len() == 0 {
            match self.executables.stop(&executable_name) {
                Ok(_) => Ok(Routed::Here(())),
                Err(e) => Err(CellsServiceError::ExecutablesError(e)),
            }
        } else {
            let ghost path = cell_name@;
            let child = match cell_name.pop_front() {
                Some(c) => c,
                None => {
                    proof {
                        assert(false);
                    }
                    return Err(CellsServiceError::CellsError(CellsError::CellNotFound { cell_name: CellName::new(String::new()) }));
                },
            };
            proof {
                assert(cell_name@ =~= path.drop_first());
            }
            let config = self.cells.get(&child, |cell: &Cell<G, D>| -> (r: Result<D::Config, CellsError>)
                ensures
                    cell.phase() == CellPhase::Allocated ==> (r matches Ok(c) && call_ensures(
                        D::client_config,
                        (&cell.daemon()->0,),
                        c,
                    )),
                    cell.phase() != CellPhase::Allocated ==> (r matches Err(e)
                        && e.kind() == CellsErrorKind::CellNotAllocated),
                { cell.client_config() });
            match config {
                Ok(client_config) => {
                    let rest = join_path(&cell_name);
                    Ok(Routed::Forward { child, client_config, cell_name: rest })
                },
                Err(e) => Err(CellsServiceError::CellsError(e)),
            }
        }
    }
}

} // verus!
