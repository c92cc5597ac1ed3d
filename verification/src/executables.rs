//! Executables: processes started inside a cell, and the store of them.
use vstd::prelude::*;
use crate::errors::SystemError;
use crate::names::ExecutableName;
use crate::namespaces::ExecPrep;
use crate::table::NameTable;

verus! {

/// A command line: the program and its arguments.
#[derive(Debug, Clone)]
pub struct CommandSpec {
    pub program: String,
    pub args: Vec<String>,
}

/// What an executable is started from.
#[derive(Debug)]
pub struct ExecutableSpec {
    pub name: ExecutableName,
    pub description: String,
    pub command: CommandSpec,
}

/// A running process.
pub trait ExecProcess {
    /// Its process id.
    fn pid(&self) -> i32;

    /// Sends it `SIGKILL` and waits for it; gives its exit status.
    fn kill_and_wait(&mut self) -> Result<i32, SystemError>;
}

/// Starts processes.
pub trait Launcher<P> {
    /// Starts `command` in `/` with its output captured.
    fn exec(&mut self, command: &CommandSpec) -> Result<P, SystemError>;
}

/// Starts processes that prepare themselves (unshare namespaces, mount
/// `proc`) before they run their program.
pub trait PreparedLauncher<P> {
    /// Starts `command`, carrying out `prep` in the new process first.
    fn exec_prepared(&mut self, command: &CommandSpec, prep: &ExecPrep) -> Result<P, SystemError>;
}

/// Where an executable is in its life.
#[derive(Debug, Clone, Copy, PartialEq, Eq)]
pub enum ExecutablePhase {
    Init,
    Started,
    Stopped,
}

enum ExecutableState<P> {
    Init,
    Started { process: P, pid: i32 },
    Stopped(i32),
}

/// A process of a cell, from its command line to its exit status.
pub struct Executable<P> {
    name: ExecutableName,
    description: String,
    command: CommandSpec,
    state: ExecutableState<P>,
}

/// A launcher of type `L` was handed `command` and answered `r`.
pub open spec fn launched<P, L: Launcher<P>>(command: CommandSpec, r: Result<P, SystemError>) -> bool {
    exists|l: &mut L| call_ensures(L::exec, (l, &command), r)
}

/// A launcher of type `L` was handed `command` and `prep` and answered `r`.
pub open spec fn launched_prepared<P, L: PreparedLauncher<P>>(
    command: CommandSpec,
    prep: ExecPrep,
    r: Result<P, SystemError>,
) -> bool {
    exists|l: &mut L| call_ensures(L::exec_prepared, (l, &command, &prep), r)
}

/// `process` was asked for its process id and answered `pid`.
pub open spec fn reported_pid<P: ExecProcess>(process: P, pid: i32) -> bool {
    call_ensures(P::pid, (&process,), pid)
}

/// `process` was killed and waited for, and that answered `r`.
pub open spec fn killed<P: ExecProcess>(process: P, r: Result<i32, SystemError>) -> bool {
    exists|m: &mut P| *m == process && call_ensures(P::kill_and_wait, (m,), r)
}

/// How starting an executable ends, given the launcher's answer `a`: a
/// started process, whose reported pid is recorded, or the launcher's error
/// with the executable left new.
pub open spec fn start_outcome<P: ExecProcess>(
    after: Executable<P>,
    a: Result<P, SystemError>,
    r: Result<(), SystemError>,
) -> bool {
    &&& (a matches Ok(p) ==> r is Ok && after.phase() == ExecutablePhase::Started && after.process() == Some(p)
        && reported_pid(p, after.started_pid()->0))
    &&& (a matches Err(e) ==> r == Err::<(), SystemError>(e) && after.phase() == ExecutablePhase::Init)
}

impl<P: ExecProcess> Executable<P> {
    /// Its name.
    pub closed spec fn exe_name(&self) -> Seq<char> {
        self.name@
    }

    /// Its description.
    pub closed spec fn exe_description(&self) -> Seq<char> {
        self.description@
    }

    /// The command line it runs.
    pub closed spec fn command(&self) -> CommandSpec {
        self.command
    }

    /// Its process, while it runs.
    pub closed spec fn process(&self) -> Option<P> {
        match self.state {
            ExecutableState::Started { process, .. } => Some(process),
            _ => None,
        }
    }

    /// Where it is in its life.
    pub closed spec fn phase(&self) -> ExecutablePhase {
        match self.state {
            ExecutableState::Init => ExecutablePhase::Init,
            ExecutableState::Started { .. } => ExecutablePhase::Started,
            ExecutableState::Stopped(_) => ExecutablePhase::Stopped,
        }
    }

    /// The pid its process was started with, while it runs.
    pub closed spec fn started_pid(&self) -> Option<i32> {
        match self.state {
            ExecutableState::Started { pid, .. } => Some(pid),
            _ => None,
        }
    }

    /// The exit status, once stopped.
    pub closed spec fn exit_status(&self) -> Option<i32> {
        match self.state {
            ExecutableState::Stopped(s) => Some(s),
            _ => None,
        }
    }

    /// A new executable that has not been started.
    pub fn new(spec: ExecutableSpec) -> (r: Self)
        ensures
            r.exe_name() == spec.name@,
            r.exe_description() == spec.description@,
            r.command() == spec.command,
            r.phase() == ExecutablePhase::Init,
    {
        let ExecutableSpec { name, description, command } = spec;
        Executable {
            name,
            description,
            command,
            state: ExecutableState::Init,
        }
    }

    /// Its name.
    pub fn name(&self) -> (r: &ExecutableName)
        ensures
            r@ == self.exe_name(),
    {
        &self.name
    }

    /// Its description.
    pub fn description(&self) -> (r: &str)
        ensures
            r@ == self.exe_description(),
    {
        self.description.as_str()
    }

    /// Where it is in its life.
    pub fn current_phase(&self) -> (r: ExecutablePhase)
        ensures
            r == self.phase(),
    {
        match &self.state {
            ExecutableState::Init => ExecutablePhase::Init,
            ExecutableState::Started { .. } => ExecutablePhase::Started,
            ExecutableState::Stopped(_) => ExecutablePhase::Stopped,
        }
    }

    /// Starts the process: its command goes to the launcher, and the pid
    /// the process reports is recorded. Does nothing unless the executable is
    /// new; a failure to start leaves it new.
    pub fn start<L: Launcher<P>>(&mut self, launcher: &mut L) -> (r: Result<(), SystemError>)
        ensures
            final(self).exe_name() == old(self).exe_name(),
            final(self).exe_description() == old(self).exe_description(),
            final(self).command() == old(self).command(),
            old(self).phase() != ExecutablePhase::Init ==> r is Ok && *final(self) == *old(self),
            old(self).phase() == ExecutablePhase::Init ==> exists|a: Result<P, SystemError>|
                #[trigger] launched::<P, L>(old(self).command(), a) && start_outcome(*final(self), a, r),
    {
        match self.state {
            ExecutableState::Init => {},
            _ => {
                return Ok(());
            },
        }
        let answer = launcher.exec(&self.command);
        proof {
            assert(launched::<P, L>(self.command, answer));
        }
        match answer {
            Err(e) => {
                let r = Err(e);
                proof {
                    assert(start_outcome(*self, answer, r));
                    assert(old(self).command() == self.command);
                }
                r
            },
            Ok(process) => {
                let pid = process.pid();
                self.state = ExecutableState::Started { process, pid };
                proof {
                    assert(start_outcome(*self, answer, Ok(())));
                }
                Ok(())
            },
        }
    }

    /// Starts the process with `prep` carried out first in it: the command
    /// and `prep` go to the launcher, and the pid the process reports is
    /// recorded. Does nothing unless the executable is new; a failure to
    /// start leaves it new.
    pub fn start_prepared<L: PreparedLauncher<P>>(&mut self, launcher: &mut L, prep: &ExecPrep) -> (r: Result<(), SystemError>)
        ensures
            final(self).exe_name() == old(self).exe_name(),
            final(self).exe_description() == old(self).exe_description(),
            final(self).command() == old(self).command(),
            old(self).phase() != ExecutablePhase::Init ==> r is Ok && *final(self) == *old(self),
            old(self).phase() == ExecutablePhase::Init ==> exists|a: Result<P, SystemError>|
                #[trigger] launched_prepared::<P, L>(old(self).command(), *prep, a) && start_outcome(*final(self), a, r),
    {
        match self.state {
            ExecutableState::Init => {},
            _ => {
                return Ok(());
            },
        }
        let answer = launcher.exec_prepared(&self.command, prep);
        proof {
            assert(launched_prepared::<P, L>(self.command, *prep, answer));
        }
        match answer {
            Err(e) => {
                let r = Err(e);
                proof {
                    assert(start_outcome(*self, answer, r));
                    assert(old(self).command() == self.command);
                }
                r
            },
            Ok(process) => {
                let pid = process.pid();
                self.state = ExecutableState::Started { process, pid };
                proof {
                    assert(start_outcome(*self, answer, Ok(())));
                }
                Ok(())
            },
        }
    }

    /// Stops the process and gives its exit status: none if it was never
    /// started; the recorded status if it already stopped. Otherwise the
    /// process is killed and waited for: its exit status is recorded and
    /// given, or, if that fails, it stays running and the error is given.
    pub fn kill(&mut self) -> (r: Result<Option<i32>, SystemError>)
        ensures
            final(self).exe_name() == old(self).exe_name(),
            final(self).exe_description() == old(self).exe_description(),
            final(self).command() == old(self).command(),
            old(self).phase() == ExecutablePhase::Init ==> r == Ok::<Option<i32>, SystemError>(None)
                && *final(self) == *old(self),
            old(self).phase() == ExecutablePhase::Stopped ==> r == Ok::<Option<i32>, SystemError>(old(self).exit_status())
                && *final(self) == *old(self),
            old(self).phase() == ExecutablePhase::Started ==> exists|a: Result<i32, SystemError>|
                #[trigger] killed(old(self).process()->0, a) && {
                    &&& (a matches Ok(s) ==> r == Ok::<Option<i32>, SystemError>(Some(s))
                        && final(self).phase() == ExecutablePhase::Stopped && final(self).exit_status() == Some(s))
                    &&& (a matches Err(e) ==> r == Err::<Option<i32>, SystemError>(e)
                        && final(self).phase() == ExecutablePhase::Started
                        && final(self).started_pid() == old(self).started_pid())
                },
    {
        let status = match &mut self.state {
            ExecutableState::Init => {
                return Ok(None);
            },
            ExecutableState::Stopped(s) => {
                return Ok(Some(*s));
            },
            ExecutableState::Started { process, .. } => process.kill_and_wait(),
        };
        proof {
            assert(killed(old(self).process()->0, status));
        }
        match status {
            Err(e) => Err(e),
            Ok(s) => {
                self.state = ExecutableState::Stopped(s);
                Ok(Some(s))
            },
        }
    }

    /// The pid the process was started with, while it runs.
    pub fn pid(&self) -> (r: Option<i32>)
        ensures
            r == self.started_pid(),
            r is Some <==> self.phase() == ExecutablePhase::Started,
    {
        match &self.state {
            ExecutableState::Started { pid, .. } => Some(*pid),
            _ => None,
        }
    }
}

} // verus!

verus! {

/// Why an operation on executables failed.
#[derive(Debug)]
pub enum ExecutablesError {
    ExecutableExists { executable_name: ExecutableName },
    ExecutableNotFound { executable_name: ExecutableName },
    FailedToStartExecutable { executable_name: ExecutableName, source: SystemError },
    FailedToStopExecutable { executable_name: ExecutableName, source: SystemError },
}

/// The error kinds of executables, without their payloads.
#[derive(Debug, Clone, Copy, PartialEq, Eq)]
pub enum ExecutablesErrorKind {
    ExecutableExists,
    ExecutableNotFound,
    FailedToStartExecutable,
    FailedToStopExecutable,
}

impl ExecutablesError {
    pub open spec fn kind(&self) -> ExecutablesErrorKind {
        match self {
            ExecutablesError::ExecutableExists { .. } => ExecutablesErrorKind::ExecutableExists,
            ExecutablesError::ExecutableNotFound { .. } => ExecutablesErrorKind::ExecutableNotFound,
            ExecutablesError::FailedToStartExecutable { .. } => ExecutablesErrorKind::FailedToStartExecutable,
            ExecutablesError::FailedToStopExecutable { .. } => ExecutablesErrorKind::FailedToStopExecutable,
        }
    }

    /// The executable the error is about.
    pub open spec fn executable(&self) -> Seq<char> {
        match self {
            ExecutablesError::ExecutableExists { executable_name } => executable_name@,
            ExecutablesError::ExecutableNotFound { executable_name } => executable_name@,
            ExecutablesError::FailedToStartExecutable { executable_name, .. } => executable_name@,
            ExecutablesError::FailedToStopExecutable { executable_name, .. } => executable_name@,
        }
    }
}

fn copy_exe_name(name: &ExecutableName) -> (r: ExecutableName)
    ensures
        r@ == name@,
{
    ExecutableName::new(String::from_str(name.as_str()))
}

/// The executables of a cell, keyed by name.
pub struct Executables<P> {
    cache: NameTable<Executable<P>>,
}

impl<P: ExecProcess> Executables<P> {
    /// The executables by name.
    pub closed spec fn executables(&self) -> Map<Seq<char>, Executable<P>> {
        self.cache@
    }

    /// Every executable is stored under its own name.
    pub closed spec fn wf(&self) -> bool {
        &&& self.cache.wf()
        &&& forall|k: Seq<char>| #[trigger] self.cache@.contains_key(k) ==> self.cache@[k].exe_name() == k
    }

    /// No executables.
    pub fn new() -> (r: Self)
        ensures
            r.wf(),
            r.executables() == Map::<Seq<char>, Executable<P>>::empty(),
    {
        Executables { cache: NameTable::new() }
    }

    /// Starts an executable and adds it under its name. A name already in
    /// use is refused and nothing changes; so does a process that does not
    /// start, and the start may then be tried again.
    pub fn start<L: Launcher<P>>(&mut self, launcher: &mut L, spec: ExecutableSpec) -> (r: Result<&Executable<P>, ExecutablesError>)
        requires
            old(self).wf(),
        ensures
            final(self).wf(),
            old(self).executables().contains_key(spec.name@) ==> (r matches Err(e) && e.kind()
                == ExecutablesErrorKind::ExecutableExists && e.executable() == spec.name@
                && final(self).executables() == old(self).executables()),
            !old(self).executables().contains_key(spec.name@) && r is Ok ==> {
                &&& final(self).executables().dom() == old(self).executables().dom().insert(spec.name@)
                &&& forall|k: Seq<char>| k != spec.name@ && #[trigger] old(self).executables().contains_key(k)
                    ==> final(self).executables()[k] == old(self).executables()[k]
                &&& r matches Ok(x) ==> *x == final(self).executables()[spec.name@]
                    && x.phase() == ExecutablePhase::Started && x.command() == spec.command
                    && x.exe_name() == spec.name@ && x.exe_description() == spec.description@
                    && launched::<P, L>(spec.command, Ok(x.process()->0))
                    && reported_pid(x.process()->0, x.started_pid()->0)
            },
            !old(self).executables().contains_key(spec.name@) && r is Err ==> (r matches Err(
                ExecutablesError::FailedToStartExecutable { executable_name, source },
            ) && executable_name@ == spec.name@ && launched::<P, L>(spec.command, Err(source))
                && final(self).executables() == old(self).executables()),
    {
        if self.cache.contains(spec.name.as_str()) {
            return Err(ExecutablesError::ExecutableExists { executable_name: spec.name });
        }
        let key = String::from_str(spec.name.as_str());
        let lookup = String::from_str(spec.name.as_str());
        let name = copy_exe_name(&spec.name);
        let mut exe = Executable::new(spec);
        match exe.start(launcher) {
            Err(e) => {
                return Err(ExecutablesError::FailedToStartExecutable { executable_name: name, source: e });
            },
            Ok(()) => {},
        }
        let inserted = self.cache.insert(key, exe);
        proof {
            assert(inserted is Ok);
        }
        match self.cache.get(lookup.as_str()) {
            Some(x) => Ok(x),
            None => {
                proof {
                    assert(false);
                }
                Err(ExecutablesError::ExecutableNotFound { executable_name: name })
            },
        }
    }

    /// Stops the executable named `name`, drops it from the store and gives
    /// its exit status. A missing executable is reported not found, and so
    /// is one that was never started (it is dropped all the same). If it
    /// cannot be killed it stays, running.
    pub fn stop(&mut self, name: &ExecutableName) -> (r: Result<i32, ExecutablesError>)
        requires
            old(self).wf(),
        ensures
            final(self).wf(),
            !old(self).executables().contains_key(name@) ==> (r matches Err(e) && e.kind()
                == ExecutablesErrorKind::ExecutableNotFound && e.executable() == name@
                && final(self).executables() == old(self).executables()),
            old(self).executables().contains_key(name@) ==> {
                let before = old(self).executables()[name@];
                &&& before.phase() == ExecutablePhase::Init ==> (r matches Err(e) && e.kind()
                    == ExecutablesErrorKind::ExecutableNotFound && e.executable() == name@
                    && final(self).executables() == old(self).executables().remove(name@))
                &&& before.phase() == ExecutablePhase::Stopped ==> r == Ok::<i32, ExecutablesError>(
                    before.exit_status()->0) && final(self).executables() == old(self).executables().remove(name@)
                &&& before.phase() == ExecutablePhase::Started && r is Ok ==> final(self).executables()
                    == old(self).executables().remove(name@) && killed(before.process()->0, Ok(r->Ok_0))
                &&& before.phase() == ExecutablePhase::Started && r is Err ==> (r matches Err(
                    ExecutablesError::FailedToStopExecutable { executable_name, source },
                ) && executable_name@ == name@ && killed(before.process()->0, Err(source))
                    && final(self).executables().dom() == old(self).executables().dom()
                    && final(self).executables()[name@].phase() == ExecutablePhase::Started
                    && final(self).executables()[name@].started_pid() == before.started_pid()
                    && forall|k: Seq<char>| k != name@ && #[trigger] old(self).executables().contains_key(k)
                        ==> final(self).executables()[k] == old(self).executables()[k])
            },
    {
        let mut exe = match self.cache.remove(name.as_str()) {
            Ok(x) => x,
            Err(_) => {
                return Err(ExecutablesError::ExecutableNotFound { executable_name: copy_exe_name(name) });
            },
        };
        match exe.kill() {
            Err(e) => {
                let key = String::from_str(exe.name().as_str());
                let _ = self.cache.insert(key, exe);
                proof {
                    assert(self.cache@.dom() =~= old(self).executables().dom());
                }
                Err(ExecutablesError::FailedToStopExecutable { executable_name: copy_exe_name(name), source: e })
            },
            Ok(None) => Err(ExecutablesError::ExecutableNotFound { executable_name: copy_exe_name(name) }),
            Ok(Some(status)) => Ok(status),
        }
    }
}

} // verus!
