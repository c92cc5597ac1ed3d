//! A cell service that keeps the cgroup of each cell and the child process
//! started in it in two tables keyed by cell name.
use vstd::prelude::*;
use crate::cells::{cgroup_deleted, task_added, CellCgroup, CellsError};
use crate::cell_path::split_on;
use crate::commands::{command_args, command_from_string};
use crate::errors::{StatusCode, SystemError};
use crate::executables::CommandSpec;
use crate::names::CellName;
use crate::requests::{ValidatedCell, ValidatedExecutable};
use crate::service::AllocateCellResponse;
use crate::resources::{cpu_list_text, CgroupSettings, MICROSECONDS_PER_SECOND};
use crate::tables::{CgroupTable, ChildTable};
use crate::text::views_of;
use crate::workload::CgroupFactory;

verus! {

/// A child process started by the service.
pub trait ChildProcess {
    /// Its process id.
    fn id(&self) -> u32;

    /// Kills it and waits for it; gives its exit status.
    fn kill_and_wait(&mut self) -> Result<i32, SystemError>;
}

/// Starts child processes.
pub trait ChildSpawner<C> {
    /// Starts `command`.
    fn spawn(&mut self, command: &CommandSpec) -> Result<C, SystemError>;
}

/// The errors of the service.
#[derive(Debug)]
pub enum RuntimeError {
    /// A request lacked an argument.
    MissingArgument { arg: String },
    /// Something failed inside the daemon.
    Internal { msg: String, err: String },
    /// A resource the request needs was never allocated.
    Unallocated { resource: String },
    /// A cell operation failed.
    CellsError(CellsError),
    /// Any other failure, with its message.
    Other { message: String },
}

impl RuntimeError {
    /// The status a client is answered with: a missing argument fails a
    /// precondition, an unallocated resource is not found, anything else is
    /// internal.
    pub fn status_code(&self) -> (r: StatusCode)
        ensures
            self is MissingArgument ==> r == StatusCode::FailedPrecondition,
            self is Unallocated ==> r == StatusCode::NotFound,
            (self is Internal || self is CellsError || self is Other) ==> r == StatusCode::Internal,
    {
        match self {
            RuntimeError::MissingArgument { .. } => StatusCode::FailedPrecondition,
            RuntimeError::Unallocated { .. } => StatusCode::NotFound,
            _ => StatusCode::Internal,
        }
    }
}

/// Whether `s` are the cgroup settings of `cell`: its CPU weight as shares,
/// its quota over a period of one second, its CPU list and memory nodes.
pub open spec fn is_cell_settings(s: CgroupSettings, cell: ValidatedCell) -> bool {
    &&& s.shares == cell.cpu_shares@
    &&& s.quota == cell.cpu_quota@
    &&& s.period == MICROSECONDS_PER_SECOND
    &&& s.cpus@ == cpu_list_text(cell.cpu_cpus@)
    &&& s.mems@ == cell.cpu_mems@
}

/// A factory of type `F` was asked to build the cgroup of `cell` with the
/// cell's settings, and gave `g`.
pub open spec fn built_for_cell<G, F: CgroupFactory<G>>(cell: ValidatedCell, g: G) -> bool {
    exists|f: &mut F, n: CellName, st: CgroupSettings|
        n@ == cell.name@ && is_cell_settings(st, cell) && call_ensures(F::build, (f, &n, &st), g)
}

/// A spawner of type `S` was handed the command line `cmd`, split on spaces
/// (the first word the program, the other words its arguments), and
/// answered `r`.
pub open spec fn spawned_child<C, S: ChildSpawner<C>>(cmd: Seq<char>, r: Result<C, SystemError>) -> bool {
    exists|sp: &mut S, c: CommandSpec|
        c.program@ == split_on(cmd, ' ')[0] && views_of(c.args@) == command_args(split_on(cmd, ' ')) && call_ensures(
            S::spawn,
            (sp, &c),
            r,
        )
}

/// The child `c` was asked for its id and answered `id`.
pub open spec fn child_id<C: ChildProcess>(c: C, id: u32) -> bool {
    call_ensures(C::id, (&c,), id)
}

/// The child `c` was killed and waited for, and that answered `r`.
pub open spec fn child_killed<C: ChildProcess>(c: C, r: Result<i32, SystemError>) -> bool {
    exists|m: &mut C| *m == c && call_ensures(C::kill_and_wait, (m,), r)
}

/// How starting one command line in the cell `cell` ends, given the
/// spawner's answer `a`, with the cgroups `cgroups`, the children going from
/// `before` to `after` and the result `r`: a failed spawn is the error; a
/// cell without a cgroup is unallocated; otherwise the child's id is handed
/// to a copy of the cell's cgroup, and if it joined, the child is recorded as
/// the cell's, unless the cell already has one.
pub open spec fn start_one_outcome<G: CellCgroup + Clone, C: ChildProcess>(
    cgroups: Map<Seq<char>, G>,
    before: Map<Seq<char>, C>,
    after: Map<Seq<char>, C>,
    cell: Seq<char>,
    a: Result<C, SystemError>,
    r: Result<(), RuntimeError>,
) -> bool {
    &&& (a is Err ==> r is Err && after == before)
    &&& (a is Ok && !cgroups.contains_key(cell) ==> (r matches Err(RuntimeError::Unallocated { .. })) && after == before)
    &&& (a matches Ok(c) ==> cgroups.contains_key(cell) ==> exists|id: u32, g: G, added: Result<(), SystemError>|
        #![trigger child_id(c, id), task_added(g, id as i32, added)]
        child_id(c, id) && cloned(cgroups[cell], g) && task_added(g, id as i32, added) && {
            &&& (added is Err ==> r is Err && after == before)
            &&& (added is Ok && before.contains_key(cell) ==> r is Err && after == before)
            &&& (added is Ok && !before.contains_key(cell) ==> r is Ok && after == before.insert(cell, c))
        })
}

/// The service: the cgroup of each cell and the child process started in it.
pub struct TableCellService<G, C> {
    child_table: ChildTable<C>,
    cgroup_table: CgroupTable<G>,
}

impl<G: CellCgroup + Clone, C: ChildProcess> TableCellService<G, C> {
    /// The cgroups by cell name.
    pub closed spec fn cgroups(&self) -> Map<Seq<char>, G> {
        self.cgroup_table@
    }

    /// The child processes by cell name.
    pub closed spec fn children(&self) -> Map<Seq<char>, C> {
        self.child_table@
    }

    /// The tables are well formed.
    pub closed spec fn wf(&self) -> bool {
        self.child_table.wf() && self.cgroup_table.wf()
    }

    /// Empty tables.
    pub fn new() -> (r: Self)
        ensures
            r.wf(),
            r.cgroups() == Map::<Seq<char>, G>::empty(),
            r.children() == Map::<Seq<char>, C>::empty(),
    {
        TableCellService { child_table: ChildTable::new(), cgroup_table: CgroupTable::new() }
    }

    /// Builds the cgroup of a cell with the cell's settings and records a
    /// copy of it; a cell that already has one is refused (the new cgroup is
    /// dropped).
    pub fn create_cgroup<F: CgroupFactory<G>>(&mut self, factory: &mut F, cell: &ValidatedCell) -> (r: Result<G, RuntimeError>)
        requires
            old(self).wf(),
        ensures
            final(self).wf(),
            final(self).children() == old(self).children(),
            exists|g: G| #[trigger] built_for_cell::<G, F>(*cell, g) && (r matches Ok(c) ==> c == g) && (
            !old(self).cgroups().contains_key(cell.name@) ==> cloned(g, final(self).cgroups()[cell.name@])),
            old(self).cgroups().contains_key(cell.name@) ==> r is Err && final(self).cgroups() == old(self).cgroups(),
            !old(self).cgroups().contains_key(cell.name@) ==> r is Ok && final(self).cgroups().dom()
                == old(self).cgroups().dom().insert(cell.name@),
    {
        let settings = cell.cgroup_spec().settings();
        let cgroup = factory.build(&cell.name, &settings);
        proof {
            assert(built_for_cell::<G, F>(*cell, cgroup));
        }
        let copy = cgroup.clone();
        match self.cgroup_table.insert(String::from_str(cell.name.as_str()), copy) {
            Ok(()) => Ok(cgroup),
            Err(_) => Err(RuntimeError::Other { message: String::from_str("cgroup already exists") }),
        }
    }

    /// Removes the cgroup of a cell from the table and deletes it; a cell
    /// without one is an error, and so is a cgroup that cannot be deleted.
    pub fn remove_cgroup(&mut self, cell_name: &CellName) -> (r: Result<(), RuntimeError>)
        requires
            old(self).wf(),
        ensures
            final(self).wf(),
            final(self).children() == old(self).children(),
            final(self).cgroups() == old(self).cgroups().remove(cell_name@),
            !old(self).cgroups().contains_key(cell_name@) ==> r is Err,
            old(self).cgroups().contains_key(cell_name@) ==> exists|d: Result<(), SystemError>|
                #[trigger] cgroup_deleted(old(self).cgroups()[cell_name@], d) && (r is Ok <==> d is Ok),
    {
        let cgroup = match self.cgroup_table.remove(cell_name.as_str()) {
            Ok(g) => g,
            Err(_) => {
                proof {
                    assert(old(self).cgroups().remove(cell_name@) =~= old(self).cgroups());
                }
                return Err(RuntimeError::Other { message: String::from_str("cgroup not found") });
            },
        };
        let deleted = cgroup.delete();
        proof {
            assert(cgroup_deleted(cgroup, deleted));
        }
        match deleted {
            Ok(()) => Ok(()),
            Err(e) => Err(RuntimeError::Other { message: e.message }),
        }
    }

    /// Allocates a cell: creates its cgroup and answers with its name and
    /// hierarchy.
    pub fn allocate<F: CgroupFactory<G>>(&mut self, factory: &mut F, cell: ValidatedCell) -> (r: Result<AllocateCellResponse, RuntimeError>)
        requires
            old(self).wf(),
        ensures
            final(self).wf(),
            final(self).children() == old(self).children(),
            exists|g: G| #[trigger] built_for_cell::<G, F>(cell, g) && (r matches Ok(resp) ==> call_ensures(
                G::v2,
                (&g,),
                resp.cgroup_v2,
            )) && (!old(self).cgroups().contains_key(cell.name@) ==> cloned(g, final(self).cgroups()[cell.name@])),
            old(self).cgroups().contains_key(cell.name@) ==> r is Err && final(self).cgroups() == old(self).cgroups(),
            !old(self).cgroups().contains_key(cell.name@) ==> (r matches Ok(resp) && resp.cell_name@ == cell.name@)
                && final(self).cgroups().dom() == old(self).cgroups().dom().insert(cell.name@),
    {
        let created = self.create_cgroup(factory, &cell);
        let ghost g = choose|g: G| #[trigger] built_for_cell::<G, F>(cell, g) && (created matches Ok(c) ==> c == g)
            && (!old(self).cgroups().contains_key(cell.name@) ==> cloned(g, self.cgroups()[cell.name@]));
        let cgroup = match created {
            Ok(g) => g,
            Err(e) => {
                return Err(e);
            },
        };
        let v2 = cgroup.v2();
        proof {
            assert(built_for_cell::<G, F>(cell, g));
        }
        Ok(AllocateCellResponse { cell_name: String::from_str(cell.name.as_str()), cgroup_v2: v2 })
    }

    /// Frees a cell: removes and deletes its cgroup.
    pub fn free(&mut self, cell_name: &CellName) -> (r: Result<(), RuntimeError>)
        requires
            old(self).wf(),
        ensures
            final(self).wf(),
            final(self).children() == old(self).children(),
            final(self).cgroups() == old(self).cgroups().remove(cell_name@),
            !old(self).cgroups().contains_key(cell_name@) ==> r is Err,
            old(self).cgroups().contains_key(cell_name@) ==> exists|d: Result<(), SystemError>|
                #[trigger] cgroup_deleted(old(self).cgroups()[cell_name@], d) && (r is Ok <==> d is Ok),
    {
        self.remove_cgroup(cell_name)
    }

    /// Starts one command line in a cell: it is split on spaces and started,
    /// the child's id handed to a copy of the cell's cgroup, and the child
    /// recorded as the cell's.
    fn start_one<S: ChildSpawner<C>>(&mut self, spawner: &mut S, cell_name: &CellName, line: &str) -> (r: Result<(), RuntimeError>)
        requires
            old(self).wf(),
        ensures
            final(self).wf(),
            final(self).cgroups() == old(self).cgroups(),
            exists|a: Result<C, SystemError>| #[trigger] spawned_child::<C, S>(line@, a) && start_one_outcome(
                old(self).cgroups(),
                old(self).children(),
                final(self).children(),
                cell_name@,
                a,
                r,
            ),
    {
        let command = match command_from_string(line) {
            Ok(c) => c,
            Err(_) => {
                proof {
                    assert(false);
                }
                return Err(RuntimeError::Other { message: String::from_str("invalid command") });
            },
        };
        let spawned = spawner.spawn(&command);
        proof {
            assert(spawned_child::<C, S>(line@, spawned));
        }
        let child = match spawned {
            Ok(c) => c,
            Err(e) => {
                let r = Err(RuntimeError::Other { message: e.message });
                proof {
                    assert(start_one_outcome(old(self).cgroups(), old(self).children(), self.children(), cell_name@, spawned, r));
                }
                return r;
            },
        };
        let cgroup = match self.cgroup_table.get(cell_name.as_str()) {
            Some(g) => g,
            None => {
                let r = Err(RuntimeError::Unallocated { resource: String::from_str("cgroup") });
                proof {
                    assert(start_one_outcome(old(self).cgroups(), old(self).children(), self.children(), cell_name@, spawned, r));
                }
                return r;
            },
        };
        let id = child.id();
        let added = cgroup.add_task(id as i32);
        proof {
            assert(child_id(child, id));
            assert(task_added(cgroup, id as i32, added));
        }
        let r = match added {
            Ok(()) => {
                match self.child_table.insert(CellName::new(String::from_str(cell_name.as_str())), child) {
                    Ok(()) => Ok(()),
                    Err(_) => Err(RuntimeError::Other { message: String::from_str("child already exists") }),
                }
            },
            Err(e) => Err(RuntimeError::Other { message: e.message }),
        };
        proof {
            assert(start_one_outcome(old(self).cgroups(), old(self).children(), self.children(), cell_name@, spawned, r));
        }
        r
    }

    /// Starts the executables of a cell one after the other: each command
    /// line is split on spaces and started, then the child's id is handed to
    /// the cell's cgroup, and the child recorded as the cell's. The first
    /// failure ends the request. A cell without a cgroup is unallocated, and
    /// a cell that already has a child refuses another, so a request with
    /// more than one executable always fails at the second at the latest.
    pub fn start<S: ChildSpawner<C>>(&mut self, spawner: &mut S, cell_name: &CellName, executables: Vec<ValidatedExecutable>) -> (r: Result<(), RuntimeError>)
        requires
            old(self).wf(),
        ensures
            final(self).wf(),
            final(self).cgroups() == old(self).cgroups(),
            executables@.len() == 0 ==> r is Ok && final(self).children() == old(self).children(),
            executables@.len() == 1 ==> exists|a: Result<C, SystemError>|
                #[trigger] spawned_child::<C, S>(executables@[0].command@, a) && start_one_outcome(
                    old(self).cgroups(),
                    old(self).children(),
                    final(self).children(),
                    cell_name@,
                    a,
                    r,
                ),
            executables@.len() > 1 ==> r is Err && exists|a: Result<C, SystemError>, mid: Map<Seq<char>, C>, r0: Result<(), RuntimeError>|
                #![trigger spawned_child::<C, S>(executables@[0].command@, a), start_one_outcome(old(self).cgroups(), old(self).children(), mid, cell_name@, a, r0)]
                spawned_child::<C, S>(executables@[0].command@, a) && start_one_outcome(
                    old(self).cgroups(),
                    old(self).children(),
                    mid,
                    cell_name@,
                    a,
                    r0,
                ) && (r0 is Err ==> final(self).children() == mid) && (r0 is Ok ==> exists|b: Result<C, SystemError>|
                    #[trigger] spawned_child::<C, S>(executables@[1].command@, b) && start_one_outcome(
                        old(self).cgroups(),
                        mid,
                        final(self).children(),
                        cell_name@,
                        b,
                        r,
                    )),
    {
        if executables.len() == 0 {
            return Ok(());
        }
        let ghost before = self.children();
        let first = self.start_one(spawner, cell_name, executables[0].command.as_str());
        let ghost mid = self.children();
        let ghost a = choose|a: Result<C, SystemError>| #[trigger] spawned_child::<C, S>(executables@[0].command@, a)
            && start_one_outcome(old(self).cgroups(), before, mid, cell_name@, a, first);
        match first {
            Err(e) => {
                if executables.len() > 1 {
                    proof {
                        assert(spawned_child::<C, S>(executables@[0].command@, a));
                    }
                }
                return Err(e);
            },
            Ok(()) => {},
        }
        if executables.len() == 1 {
            return Ok(());
        }
        let second = self.start_one(spawner, cell_name, executables[1].command.as_str());
        proof {
            assert(spawned_child::<C, S>(executables@[0].command@, a));
            assert(mid.contains_key(cell_name@));
        }
        match second {
            Ok(()) => {
                proof {
                    assert(false);
                }
                Err(RuntimeError::Other { message: String::from_str("child already exists") })
            },
            Err(e) => Err(e),
        }
    }

    /// Stops the child process of a cell: takes it out of the table, kills
    /// it, waits for it and gives its exit status; a cell without one is an
    /// error.
    pub fn stop(&mut self, cell_name: &CellName) -> (r: Result<i32, RuntimeError>)
        requires
            old(self).wf(),
        ensures
            final(self).wf(),
            final(self).cgroups() == old(self).cgroups(),
            final(self).children() == old(self).children().remove(cell_name@),
            !old(self).children().contains_key(cell_name@) ==> r is Err,
            old(self).children().contains_key(cell_name@) ==> exists|k: Result<i32, SystemError>|
                #[trigger] child_killed(old(self).children()[cell_name@], k) && (k matches Ok(s) ==> r
                == Ok::<i32, RuntimeError>(s)) && (k is Err ==> r is Err),
    {
        let mut child = match self.child_table.remove(cell_name) {
            Ok(c) => c,
            Err(_) => {
                proof {
                    assert(old(self).children().remove(cell_name@) =~= old(self).children());
                }
                return Err(RuntimeError::Other { message: String::from_str("child not found") });
            },
        };
        let ghost removed = child;
        let result = child.kill_and_wait();
        proof {
            assert(child_killed(removed, result));
        }
        match result {
            Ok(status) => Ok(status),
            Err(e) => Err(RuntimeError::Other { message: e.message }),
        }
    }
}

} // verus!
