use auraed::cells::{Cell, CellBackend, CellCgroup, CellSpec, Cells, CellsError, NestedDaemon};
use auraed::errors::{StatusCode, SystemError};
use auraed::executables::{CommandSpec, ExecProcess, ExecutableSpec, Launcher, PreparedLauncher};
use auraed::isolation::IsolationControls;
use auraed::names::{CellName, ExecutableName};
use auraed::namespaces::{ExecPrep, NamespaceKind, SharedNamespaces};
use auraed::requests::{
    CellRequest, CellServiceFreeRequest, CellServiceStartRequest, CellServiceStopRequest, ExecutableRequest,
    ValidatedCell, ValidatedCellServiceFreeRequest, ValidatedCellServiceStartRequest, ValidatedCellServiceStopRequest,
};
use auraed::resources::{CgroupSettings, CgroupSpec, CpuCpus, CpuQuota, CpuWeight, CpusetMems};
use auraed::service::{CellService, CellsServiceError, Routed};
use auraed::table_service::{ChildProcess, ChildSpawner, RuntimeError, TableCellService};
use auraed::workload::{CgroupFactory, WorkloadCell, WorkloadCellSpec, WorkloadCells, WorkloadError};

#[derive(Debug, Clone)]
struct FakeCgroup {
    fail_add: bool,
    fail_delete: bool,
}

impl CellCgroup for FakeCgroup {
    fn add_task(&self, _pid: i32) -> Result<(), SystemError> {
        if self.fail_add {
            Err(SystemError { message: String::from("add failed") })
        } else {
            Ok(())
        }
    }

    fn delete(&self) -> Result<(), SystemError> {
        if self.fail_delete {
            Err(SystemError { message: String::from("delete failed") })
        } else {
            Ok(())
        }
    }

    fn v2(&self) -> bool {
        true
    }
}

struct FakeDaemon {
    pid: i32,
    socket: String,
}

impl NestedDaemon for FakeDaemon {
    type Config = String;

    fn pid(&self) -> i32 {
        self.pid
    }

    fn shutdown(&mut self) -> Result<i32, SystemError> {
        Ok(0)
    }

    fn kill(&mut self) -> Result<i32, SystemError> {
        Ok(9)
    }

    fn client_config(&self) -> String {
        self.socket.clone()
    }
}

struct FakeBackend {
    fail_spawn: bool,
}

impl CellBackend<FakeCgroup, FakeDaemon> for FakeBackend {
    fn create_cgroup(&mut self, _cell_name: &CellName, _spec: &CgroupSpec) -> FakeCgroup {
        FakeCgroup { fail_add: false, fail_delete: false }
    }

    fn spawn_nested_auraed(&mut self, cell_name: &CellName, _iso: &IsolationControls) -> Result<FakeDaemon, SystemError> {
        if self.fail_spawn {
            return Err(SystemError { message: String::from("spawn failed") });
        }
        Ok(FakeDaemon { pid: 100, socket: format!("/var/run/aurae/{}.sock", cell_name.as_str()) })
    }
}

struct FakeProcess {
    pid: i32,
}

impl ExecProcess for FakeProcess {
    fn pid(&self) -> i32 {
        self.pid
    }

    fn kill_and_wait(&mut self) -> Result<i32, SystemError> {
        Ok(137)
    }
}

struct FakeLauncher {
    next_pid: i32,
    preps: Vec<(Vec<NamespaceKind>, bool)>,
}

impl Launcher<FakeProcess> for FakeLauncher {
    fn exec(&mut self, _command: &CommandSpec) -> Result<FakeProcess, SystemError> {
        self.next_pid += 1;
        Ok(FakeProcess { pid: self.next_pid })
    }
}

impl PreparedLauncher<FakeProcess> for FakeLauncher {
    fn exec_prepared(&mut self, _command: &CommandSpec, prep: &ExecPrep) -> Result<FakeProcess, SystemError> {
        self.preps.push((prep.unshare.clone(), prep.mount_proc.is_some()));
        self.next_pid += 1;
        Ok(FakeProcess { pid: self.next_pid })
    }
}

fn cell_name(s: &str) -> CellName {
    CellName::new(s.to_string())
}

fn allocated_service() -> CellService<FakeCgroup, FakeDaemon, FakeProcess> {
    let mut service = CellService::new();
    let mut backend = FakeBackend { fail_spawn: false };
    let resp = service.allocate(&mut backend, cell_name("ae-1"), CellSpec::new_for_tests()).expect("allocate");
    assert_eq!(resp.cell_name, "ae-1");
    assert!(resp.cgroup_v2);
    service
}

#[test]
fn cell_service_test_create_remove_cgroup() {}

#[test]
fn mod_test_create_remove_cgroup() {}

#[test]
fn test_attempt_to_remove_unknown_cell_fails() {
    let mut cells: Cells<FakeCgroup, FakeDaemon> = Cells::new();
    let random_cell_name = cell_name("ae-random");
    let res = cells.free(&random_cell_name);
    assert!(matches!(res, Err(CellsError::CellNotFound { cell_name }) if cell_name.as_str() == "ae-random"));
}

#[test]
fn test_attempt_to_remove_unknown_cgroup_fails() {
    let mut service: TableCellService<FakeCgroup, FakeChild> = TableCellService::new();
    let cell_name = cell_name("testing-aurae-removal");
    assert!(service.remove_cgroup(&cell_name).is_err());
}

#[test]
fn allocating_a_name_twice_is_refused() {
    let mut service = allocated_service();
    let mut backend = FakeBackend { fail_spawn: false };
    match service.allocate(&mut backend, cell_name("ae-1"), CellSpec::new_for_tests()) {
        Err(e) => {
            assert!(matches!(e, CellsError::CellExists { .. }));
            assert_eq!(e.status_code(), StatusCode::AlreadyExists);
        }
        Ok(_) => panic!("expected the second allocation to be refused"),
    }
}

#[test]
fn a_cell_that_fails_to_start_is_reported() {
    let mut service: CellService<FakeCgroup, FakeDaemon, FakeProcess> = CellService::new();
    let mut backend = FakeBackend { fail_spawn: true };
    match service.allocate(&mut backend, cell_name("ae-2"), CellSpec::new_for_tests()) {
        Err(e) => {
            assert!(matches!(e, CellsError::FailedToAllocateCell { .. }));
            assert_eq!(e.status_code(), StatusCode::Internal);
        }
        Ok(_) => panic!("expected the allocation to fail"),
    }
}

fn start_request(path: &str, name: &str) -> ValidatedCellServiceStartRequest {
    ValidatedCellServiceStartRequest::validate(
        CellServiceStartRequest {
            cell_name: path.to_string(),
            executable: Some(ExecutableRequest {
                name: name.to_string(),
                command: String::from("sleep 10"),
                description: String::from("a sleeper"),
            }),
        },
        None,
    )
    .expect("valid request")
}

#[test]
fn start_here_when_the_path_is_empty() {
    let mut service = allocated_service();
    let mut launcher = FakeLauncher { next_pid: 41, preps: Vec::new() };
    match service.start(&mut launcher, start_request("", "sleeper")) {
        Ok(Routed::Here(pid)) => assert_eq!(pid, 42),
        _ => panic!("expected a local start"),
    }
    match service.start(&mut launcher, start_request("", "sleeper")) {
        Err(CellsServiceError::ExecutablesError(e)) => assert_eq!(e.status_code(), StatusCode::AlreadyExists),
        _ => panic!("expected a duplicate executable"),
    }
}

#[test]
fn start_forwards_to_the_child_cell() {
    let mut service = allocated_service();
    let mut launcher = FakeLauncher { next_pid: 0, preps: Vec::new() };
    match service.start(&mut launcher, start_request("ae-1/ae-2/ae-3", "sleeper")) {
        Ok(Routed::Forward { child, client_config, cell_name }) => {
            assert_eq!(child.as_str(), "ae-1");
            assert_eq!(client_config, "/var/run/aurae/ae-1.sock");
            assert_eq!(cell_name, "ae-2/ae-3");
        }
        _ => panic!("expected the request to be forwarded"),
    }
    match service.start(&mut launcher, start_request("ae-9", "sleeper")) {
        Err(CellsServiceError::CellsError(e)) => {
            assert!(matches!(e, CellsError::CellNotFound { .. }));
            assert_eq!(e.status_code(), StatusCode::NotFound);
        }
        _ => panic!("expected an unknown cell"),
    }
}

#[test]
fn stop_here_and_forward() {
    let mut service = allocated_service();
    let mut launcher = FakeLauncher { next_pid: 0, preps: Vec::new() };
    assert!(service.start(&mut launcher, start_request("", "sleeper")).is_ok());
    let stop = |path: &str, name: &str| {
        ValidatedCellServiceStopRequest::validate(
            CellServiceStopRequest { cell_name: path.to_string(), executable_name: name.to_string() },
            None,
        )
        .expect("valid request")
    };
    assert!(matches!(service.stop(stop("", "sleeper")), Ok(Routed::Here(()))));
    match service.stop(stop("", "sleeper")) {
        Err(CellsServiceError::ExecutablesError(e)) => assert_eq!(e.status_code(), StatusCode::NotFound),
        _ => panic!("expected a missing executable"),
    }
    match service.stop(stop("ae-1", "sleeper")) {
        Ok(Routed::Forward { child, cell_name, .. }) => {
            assert_eq!(child.as_str(), "ae-1");
            assert_eq!(cell_name, "");
        }
        _ => panic!("expected the request to be forwarded"),
    }
}

#[test]
fn freeing_a_cell_drops_it() {
    let mut service = allocated_service();
    let free = |name: &str| {
        ValidatedCellServiceFreeRequest::validate(CellServiceFreeRequest { cell_name: name.to_string() }, None)
            .expect("valid request")
    };
    assert!(service.free(free("ae-1")).is_ok());
    assert!(matches!(service.free(free("ae-1")), Err(CellsError::CellNotFound { .. })));
}

#[derive(Debug)]
struct FakeChild {
    id: u32,
}

impl ChildProcess for FakeChild {
    fn id(&self) -> u32 {
        self.id
    }

    fn kill_and_wait(&mut self) -> Result<i32, SystemError> {
        Ok(0)
    }
}

struct FakeSpawner {
    next: u32,
    commands: Vec<(String, Vec<String>)>,
}

impl ChildSpawner<FakeChild> for FakeSpawner {
    fn spawn(&mut self, command: &CommandSpec) -> Result<FakeChild, SystemError> {
        self.commands.push((command.program.clone(), command.args.clone()));
        self.next += 1;
        Ok(FakeChild { id: self.next })
    }
}

struct FakeFactory {
    built: Vec<(String, CgroupSettings)>,
}

impl CgroupFactory<FakeCgroup> for FakeFactory {
    fn build(&mut self, cell_name: &CellName, settings: &CgroupSettings) -> FakeCgroup {
        self.built.push((cell_name.as_str().to_string(), settings.clone()));
        FakeCgroup { fail_add: false, fail_delete: false }
    }
}

fn validated_cell(name: &str) -> ValidatedCell {
    ValidatedCell::validate(
        CellRequest {
            name: name.to_string(),
            cpu_cpus: vec![0, 1],
            cpu_shares: 2,
            cpu_mems: String::from("0"),
            cpu_quota: 400000,
            ns_share_mount: false,
            ns_share_uts: false,
            ns_share_ipc: false,
            ns_share_pid: false,
            ns_share_net: false,
            ns_share_cgroup: false,
        },
        None,
    )
    .expect("valid cell")
}

#[test]
fn table_service_runs_children_in_their_cgroup() {
    let mut service: TableCellService<FakeCgroup, FakeChild> = TableCellService::new();
    let mut factory = FakeFactory { built: Vec::new() };
    let resp = service.allocate(&mut factory, validated_cell("ae-1")).expect("allocate");
    assert_eq!(resp.cell_name, "ae-1");
    assert_eq!(factory.built[0].0, "ae-1");
    assert_eq!(factory.built[0].1.cpus, "0,1");
    assert_eq!(factory.built[0].1.period, 1000000);
    assert!(service.allocate(&mut factory, validated_cell("ae-1")).is_err());

    let mut spawner = FakeSpawner { next: 0, commands: Vec::new() };
    let exe = auraed::requests::ValidatedExecutable::validate(
        ExecutableRequest { name: String::from("s"), command: String::from("sleep 3000"), description: String::new() },
        None,
    )
    .expect("valid executable");
    let name = cell_name("ae-1");
    service.start(&mut spawner, &name, vec![exe]).expect("start");
    assert_eq!(spawner.commands[0], (String::from("sleep"), vec![String::from("3000")]));
    assert_eq!(service.stop(&name).expect("stop"), 0);
    assert!(service.stop(&name).is_err());
    assert!(service.free(&name).is_ok());
    assert!(service.free(&name).is_err());
}

#[test]
fn table_service_start_without_cgroup_is_unallocated() {
    let mut service: TableCellService<FakeCgroup, FakeChild> = TableCellService::new();
    let mut spawner = FakeSpawner { next: 0, commands: Vec::new() };
    let exe = auraed::requests::ValidatedExecutable::validate(
        ExecutableRequest { name: String::from("s"), command: String::from("true"), description: String::new() },
        None,
    )
    .expect("valid executable");
    match service.start(&mut spawner, &cell_name("ae-1"), vec![exe]) {
        Err(e) => {
            assert!(matches!(e, RuntimeError::Unallocated { .. }));
            assert_eq!(e.status_code(), StatusCode::NotFound);
        }
        Ok(()) => panic!("expected an unallocated cell"),
    }
    assert_eq!(RuntimeError::MissingArgument { arg: String::from("cell") }.status_code(), StatusCode::FailedPrecondition);
}

fn workload_spec(name: &str, share_pid: bool) -> WorkloadCellSpec {
    WorkloadCellSpec {
        name: cell_name(name),
        cgroup: CgroupSpec {
            cpu_cpus: CpuCpus::new(Vec::new()),
            cpu_quota: CpuQuota::new(0),
            cpu_weight: CpuWeight::new(0),
            cpuset_mems: CpusetMems::new(String::new()),
        },
        sharing: SharedNamespaces { mount: false, uts: false, ipc: true, pid: share_pid, net: false, cgroup: true },
    }
}

fn exe_spec(name: &str) -> ExecutableSpec {
    ExecutableSpec {
        name: ExecutableName::new(name.to_string()),
        description: String::new(),
        command: CommandSpec { program: String::from("/usr/bin/sh"), args: vec![String::from("-c"), String::from("sleep 1")] },
    }
}

#[test]
fn cell_test_cant_unfree() {
    let mut cell: WorkloadCell<FakeCgroup, FakeProcess> = WorkloadCell::new(workload_spec("ae-1", false));
    let mut factory = FakeFactory { built: Vec::new() };
    assert!(cell.v2().is_none());
    cell.allocate(&mut factory);
    assert_eq!(cell.v2(), Some(true));
    cell.free().expect("failed to free");
    assert!(cell.v2().is_none());
    // allocating again does nothing
    cell.allocate(&mut factory);
    assert!(cell.v2().is_none());
    assert_eq!(factory.built.len(), 1);
}

#[test]
fn first_executable_of_a_cell_is_prepared() {
    let mut cell: WorkloadCell<FakeCgroup, FakeProcess> = WorkloadCell::new(workload_spec("ae-1", false));
    let mut launcher = FakeLauncher { next_pid: 10, preps: Vec::new() };
    assert!(matches!(cell.start_executable(&mut launcher, exe_spec("a")), Err(WorkloadError::CellNotAllocated { .. })));
    let mut factory = FakeFactory { built: Vec::new() };
    cell.allocate(&mut factory);
    assert_eq!(cell.start_executable(&mut launcher, exe_spec("a")).ok(), Some(11));
    assert!(matches!(cell.start_executable(&mut launcher, exe_spec("a")), Err(WorkloadError::ExecutableExists { .. })));
    assert_eq!(cell.start_executable(&mut launcher, exe_spec("b")).ok(), Some(12));
    assert_eq!(launcher.preps.len(), 2);
    assert_eq!(
        launcher.preps[0],
        (vec![NamespaceKind::Mount, NamespaceKind::Uts, NamespaceKind::Pid, NamespaceKind::Net], true)
    );
    assert_eq!(launcher.preps[1], (Vec::new(), false));
    assert_eq!(cell.stop_executable(&ExecutableName::new(String::from("a"))).ok(), Some(Some(137)));
    assert!(matches!(
        cell.stop_executable(&ExecutableName::new(String::from("a"))),
        Err(WorkloadError::ExecutableNotFound { .. })
    ));
}

#[test]
fn a_freed_cell_is_never_allocated_again() {
    let mut cell: Cell<FakeCgroup, FakeDaemon> = Cell::new(cell_name("ae-7"), CellSpec::new_for_tests());
    let mut backend = FakeBackend { fail_spawn: false };
    assert!(cell.v2().is_none());
    cell.allocate(&mut backend).expect("allocate");
    assert_eq!(cell.v2(), Some(true));
    assert_eq!(cell.client_config().ok(), Some(String::from("/var/run/aurae/ae-7.sock")));
    // allocating an allocated cell changes nothing
    cell.allocate(&mut backend).expect("allocate again");
    assert_eq!(cell.v2(), Some(true));
    cell.free().expect("free");
    assert!(cell.v2().is_none());
    cell.allocate(&mut backend).expect("allocate after free");
    assert!(cell.v2().is_none());
    assert!(matches!(cell.client_config(), Err(CellsError::CellNotAllocated { .. })));
}

#[test]
fn table_service_starts_one_executable_per_request() {
    let mut service: TableCellService<FakeCgroup, FakeChild> = TableCellService::new();
    let mut factory = FakeFactory { built: Vec::new() };
    service.allocate(&mut factory, validated_cell("ae-1")).expect("allocate");
    let exe = |cmd: &str| {
        auraed::requests::ValidatedExecutable::validate(
            ExecutableRequest { name: String::from("s"), command: cmd.to_string(), description: String::new() },
            None,
        )
        .expect("valid executable")
    };
    let name = cell_name("ae-1");
    let mut spawner = FakeSpawner { next: 0, commands: Vec::new() };
    // The second child of the cell is refused after it was started.
    assert!(service.start(&mut spawner, &name, vec![exe("sleep 1"), exe("echo hi there")]).is_err());
    assert_eq!(spawner.commands.len(), 2);
    assert_eq!(spawner.commands[1], (String::from("echo"), vec![String::from("hi"), String::from("there")]));
    // The cell still has its first child, so another start is refused too.
    assert!(service.start(&mut spawner, &name, vec![exe("true")]).is_err());
    assert!(service.start(&mut spawner, &name, Vec::new()).is_ok());
    assert_eq!(service.stop(&name).expect("stop"), 0);
    service.start(&mut spawner, &name, vec![exe("true")]).expect("start after stop");
}

#[test]
fn a_cell_whose_daemon_fails_keeps_no_cgroup_and_can_be_retried() {
    let mut cell: Cell<FakeCgroup, FakeDaemon> = Cell::new(cell_name("ae-3"), CellSpec::new_for_tests());
    let mut failing = FakeBackend { fail_spawn: true };
    assert!(matches!(cell.allocate(&mut failing), Err(CellsError::FailedToAllocateCell { .. })));
    assert!(cell.v2().is_none());
    let mut backend = FakeBackend { fail_spawn: false };
    cell.allocate(&mut backend).expect("allocate");
    assert_eq!(cell.v2(), Some(true));
}

#[test]
fn workload_cells_allocate_each_name_once() {
    let mut cells: WorkloadCells<FakeCgroup, FakeProcess> = WorkloadCells::new();
    let mut factory = FakeFactory { built: Vec::new() };
    let cell = cells.allocate(&mut factory, workload_spec("ae-1", false)).expect("a new name is allocated");
    assert_eq!(cell.v2(), Some(true));
    assert!(matches!(cells.allocate(&mut factory, workload_spec("ae-1", false)), Err(WorkloadError::CellExists { .. })));
    assert_eq!(factory.built.len(), 1);
    assert_eq!(cells.get(&cell_name("ae-1"), |c| Ok(c.v2())).ok(), Some(Some(true)));
    assert!(matches!(cells.get(&cell_name("ae-2"), |c| Ok(c.v2())), Err(WorkloadError::CellNotFound { .. })));
    assert!(cells.free(&cell_name("ae-1")).is_ok());
    assert!(matches!(cells.free(&cell_name("ae-1")), Err(WorkloadError::CellNotFound { .. })));
}
