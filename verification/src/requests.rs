//! The requests of the cell service, and how they are validated.
use vstd::prelude::*;
use std::collections::VecDeque;
use crate::cell_path::{cell_names_of_path, names_view, split_on, valid_names};
use crate::names::{present_not_empty, CellName, ExecutableName};
use crate::resources::{CgroupSpec, CpuCpus, CpuQuota, CpuWeight, CpusetMems, MAX_CPU_QUOTA, MAX_CPU_WEIGHT};
use crate::executables::{CommandSpec, ExecutableSpec};
use crate::namespaces::SharedNamespaces;
use crate::validation::{
    field_name, is_dns_label, is_maximum_error, is_pattern_error, is_required_error, opt_view, required, required_not_empty, spec_field_name,
    ValidationError,
};

verus! {

/// An executable as a client describes it.
#[derive(Debug, Clone)]
pub struct ExecutableRequest {
    pub name: String,
    pub command: String,
    pub description: String,
}

/// A request to start an executable in a (possibly nested) cell.
#[derive(Debug, Clone)]
pub struct CellServiceStartRequest {
    pub cell_name: String,
    pub executable: Option<ExecutableRequest>,
}

/// A request to stop an executable in a (possibly nested) cell.
#[derive(Debug, Clone)]
pub struct CellServiceStopRequest {
    pub cell_name: String,
    pub executable_name: String,
}

/// A request to free a cell.
#[derive(Debug, Clone)]
pub struct CellServiceFreeRequest {
    pub cell_name: String,
}

/// A cell as a client describes it.
#[derive(Debug, Clone)]
pub struct CellRequest {
    pub name: String,
    pub cpu_cpus: Vec<i32>,
    pub cpu_shares: u64,
    pub cpu_mems: String,
    pub cpu_quota: i64,
    pub ns_share_mount: bool,
    pub ns_share_uts: bool,
    pub ns_share_ipc: bool,
    pub ns_share_pid: bool,
    pub ns_share_net: bool,
    pub ns_share_cgroup: bool,
}

/// A request to allocate a cell.
#[derive(Debug, Clone)]
pub struct CellServiceAllocateRequest {
    pub cell: Option<CellRequest>,
}

/// A validated free request.
#[derive(Debug)]
pub struct ValidatedCellServiceFreeRequest {
    pub cell_name: CellName,
}

/// A validated stop request.
#[derive(Debug)]
pub struct ValidatedCellServiceStopRequest {
    pub cell_name: VecDeque<CellName>,
    pub executable_name: ExecutableName,
}

/// A validated executable: its command runs under `sh -c`.
#[derive(Debug)]
pub struct ValidatedExecutable {
    pub name: ExecutableName,
    pub command: String,
    pub description: String,
}

/// A validated start request.
#[derive(Debug)]
pub struct ValidatedCellServiceStartRequest {
    pub cell_name: VecDeque<CellName>,
    pub executable: ValidatedExecutable,
}

/// A validated cell.
#[derive(Debug)]
pub struct ValidatedCell {
    pub name: CellName,
    pub cpu_cpus: CpuCpus,
    pub cpu_shares: CpuWeight,
    pub cpu_mems: CpusetMems,
    pub cpu_quota: CpuQuota,
    pub ns_share_mount: bool,
    pub ns_share_uts: bool,
    pub ns_share_ipc: bool,
    pub ns_share_pid: bool,
    pub ns_share_net: bool,
    pub ns_share_cgroup: bool,
}

/// A validated allocate request.
#[derive(Debug)]
pub struct ValidatedCellServiceAllocateRequest {
    pub cell: ValidatedCell,
}

impl ValidatedCellServiceFreeRequest {
    /// The cell name must be present and not empty.
    pub fn validate(request: CellServiceFreeRequest, parent: Option<&str>) -> (r: Result<Self, ValidationError>)
        ensures
            request.cell_name@.len() > 0 ==> (r matches Ok(v) && v.cell_name@ == request.cell_name@),
            request.cell_name@.len() == 0 ==> (r matches Err(e) && is_required_error(e, "cell_name"@, opt_view(parent))),
    {
        let cell_name = CellName::validate(Some(request.cell_name), "cell_name", parent)?;
        Ok(ValidatedCellServiceFreeRequest { cell_name })
    }
}

impl ValidatedCellServiceStopRequest {
    /// The cell path keeps its valid names (an empty path means this cell);
    /// the executable name must be present and not empty.
    pub fn validate(request: CellServiceStopRequest, parent: Option<&str>) -> (r: Result<Self, ValidationError>)
        ensures
            request.executable_name@.len() > 0 ==> (r matches Ok(v)
                && names_view(v.cell_name@) == valid_names(split_on(request.cell_name@, '/'))
                && v.executable_name@ == request.executable_name@),
            request.executable_name@.len() == 0 ==> (r matches Err(e)
                && is_required_error(e, "executable_name"@, opt_view(parent))),
    {
        let path = required(Some(request.cell_name), "cell_name", parent)?;
        let cell_name = cell_names_of_path(path.as_str());
        let executable_name = ExecutableName::validate(Some(request.executable_name), "executable_name", parent)?;
        Ok(ValidatedCellServiceStopRequest { cell_name, executable_name })
    }
}

impl ValidatedExecutable {
    /// The name and the command must be present and not empty, the name
    /// checked first; the description is taken as it is.
    pub fn validate(request: ExecutableRequest, parent: Option<&str>) -> (r: Result<Self, ValidationError>)
        ensures
            request.name@.len() == 0 ==> (r matches Err(e) && is_required_error(e, "name"@, opt_view(parent))),
            request.name@.len() > 0 && request.command@.len() == 0 ==> (r matches Err(e)
                && is_required_error(e, "command"@, opt_view(parent))),
            request.name@.len() > 0 && request.command@.len() > 0 ==> (r matches Ok(v)
                && v.name@ == request.name@ && v.command@ == request.command@
                && v.description@ == request.description@),
    {
        let name = ExecutableName::validate_for_creation(Some(request.name), "name", parent)?;
        let command = required_not_empty(Some(request.command), "command", parent)?;
        Ok(ValidatedExecutable { name, command, description: request.description })
    }
}

impl ValidatedCellServiceStartRequest {
    /// The cell path keeps its valid names; the executable must be present
    /// and is validated under the field name `executable`.
    pub fn validate(request: CellServiceStartRequest, parent: Option<&str>) -> (r: Result<Self, ValidationError>)
        ensures
            request.executable is None ==> (r matches Err(e) && is_required_error(e, "executable"@, opt_view(parent))),
            (request.executable matches Some(x) && x.name@.len() > 0 && x.command@.len() > 0) ==> (r matches Ok(v)
                && names_view(v.cell_name@) == valid_names(split_on(request.cell_name@, '/'))
                && v.executable.name@ == request.executable->0.name@
                && v.executable.command@ == request.executable->0.command@),
            (request.executable matches Some(x) && x.name@.len() == 0) ==> (r matches Err(e)
                && is_required_error(e, "name"@, Some(spec_field_name("executable"@, opt_view(parent))))),
            (request.executable matches Some(x) && x.name@.len() > 0 && x.command@.len() == 0) ==> (r matches Err(e)
                && is_required_error(e, "command"@, Some(spec_field_name("executable"@, opt_view(parent))))),
    {
        let path = required(Some(request.cell_name), "cell_name", parent)?;
        let cell_name = cell_names_of_path(path.as_str());
        let executable = required(request.executable, "executable", parent)?;
        let qualified = field_name("executable", parent);
        let executable = ValidatedExecutable::validate(executable, Some(qualified.as_str()))?;
        Ok(ValidatedCellServiceStartRequest { cell_name, executable })
    }
}

/// Whether a cell request passes validation: a DNS-label name, a CPU
/// weight and a quota within their maximums.
pub open spec fn cell_request_valid(c: CellRequest) -> bool {
    is_dns_label(c.name@) && c.cpu_shares <= MAX_CPU_WEIGHT && c.cpu_quota <= MAX_CPU_QUOTA
}

/// Whether a validated cell holds exactly the values of a request.
pub open spec fn cell_matches(v: ValidatedCell, c: CellRequest) -> bool {
    &&& v.name@ == c.name@
    &&& v.cpu_cpus@ == c.cpu_cpus@
    &&& v.cpu_shares@ == c.cpu_shares
    &&& v.cpu_mems@ == c.cpu_mems@
    &&& v.cpu_quota@ == c.cpu_quota
    &&& v.ns_share_mount == c.ns_share_mount
    &&& v.ns_share_uts == c.ns_share_uts
    &&& v.ns_share_ipc == c.ns_share_ipc
    &&& v.ns_share_pid == c.ns_share_pid
    &&& v.ns_share_net == c.ns_share_net
    &&& v.ns_share_cgroup == c.ns_share_cgroup
}

/// The error a cell request that fails validation gets, given the parent
/// of its fields.
pub open spec fn cell_request_error(c: CellRequest, e: ValidationError, parent: Option<Seq<char>>) -> bool {
    if c.name@.len() == 0 {
        is_required_error(e, "name"@, parent)
    } else if !is_dns_label(c.name@) {
        is_pattern_error(e, "name"@, parent)
    } else if c.cpu_shares > MAX_CPU_WEIGHT {
        is_maximum_error(e, "cpu_shares"@, parent, MAX_CPU_WEIGHT as int, "units"@)
    } else {
        is_maximum_error(e, "cpu_quota"@, parent, MAX_CPU_QUOTA as int, "microseconds"@)
    }
}

impl ValidatedCell {
    /// The name must be a DNS label, the CPU weight at most
    /// [crate::resources::MAX_CPU_WEIGHT] and the quota at most
    /// [crate::resources::MAX_CPU_QUOTA]; fields are checked in that order.
    pub fn validate(request: CellRequest, parent: Option<&str>) -> (r: Result<Self, ValidationError>)
        ensures
            cell_request_valid(request) ==> (r matches Ok(v) && cell_matches(v, request)),
            !cell_request_valid(request) ==> (r matches Err(e) && cell_request_error(request, e, opt_view(parent))),
    {
        let name = CellName::validate_for_creation(Some(request.name), "name", parent)?;
        let cpu_cpus = CpuCpus::validate_for_creation(Some(request.cpu_cpus), "cpu_cpus", parent)?;
        let cpu_shares = CpuWeight::validate_for_creation(Some(request.cpu_shares), "cpu_shares", parent)?;
        let cpu_mems = CpusetMems::new(request.cpu_mems);
        let cpu_quota = CpuQuota::validate_for_creation(Some(request.cpu_quota), "cpu_quota", parent)?;
        Ok(ValidatedCell {
            name,
            cpu_cpus,
            cpu_shares,
            cpu_mems,
            cpu_quota,
            ns_share_mount: request.ns_share_mount,
            ns_share_uts: request.ns_share_uts,
            ns_share_ipc: request.ns_share_ipc,
            ns_share_pid: request.ns_share_pid,
            ns_share_net: request.ns_share_net,
            ns_share_cgroup: request.ns_share_cgroup,
        })
    }

    /// The cgroup settings of the cell.
    pub fn cgroup_spec(&self) -> (r: CgroupSpec)
        ensures
            r.cpu_cpus@ == self.cpu_cpus@,
            r.cpu_quota@ == self.cpu_quota@,
            r.cpu_weight@ == self.cpu_shares@,
            r.cpuset_mems@ == self.cpu_mems@,
    {
        CgroupSpec {
            cpu_cpus: CpuCpus::new(copy_ids(&self.cpu_cpus)),
            cpu_quota: CpuQuota::new(self.cpu_quota.into_inner()),
            cpu_weight: CpuWeight::new(self.cpu_shares.into_inner()),
            cpuset_mems: CpusetMems::new(String::from_str(self.cpu_mems.as_str())),
        }
    }

    /// The namespaces the cell shares with its parent.
    pub fn shared_namespaces(&self) -> (r: SharedNamespaces)
        ensures
            r.mount == self.ns_share_mount,
            r.uts == self.ns_share_uts,
            r.ipc == self.ns_share_ipc,
            r.pid == self.ns_share_pid,
            r.net == self.ns_share_net,
            r.cgroup == self.ns_share_cgroup,
    {
        SharedNamespaces {
            mount: self.ns_share_mount,
            uts: self.ns_share_uts,
            ipc: self.ns_share_ipc,
            pid: self.ns_share_pid,
            net: self.ns_share_net,
            cgroup: self.ns_share_cgroup,
        }
    }
}

fn copy_ids(c: &CpuCpus) -> (r: Vec<i32>)
    ensures
        r@ == c@,
{
    let ids = c.as_slice();
    let mut out: Vec<i32> = Vec::new();
    let mut i: usize = 0;
    while i < ids.len()
        invariant
            i <= ids@.len(),
            out@ == ids@.take(i as int),
        decreases ids@.len() - i,
    {
        out.push(ids[i]);
        proof {
            assert(out@ =~= ids@.take(i + 1));
        }
        i = i + 1;
    }
    proof {
        assert(ids@.take(ids@.len() as int) =~= ids@);
    }
    out
}

impl ValidatedCellServiceAllocateRequest {
    /// The cell must be present and is validated under the field name `cell`.
    pub fn validate(request: CellServiceAllocateRequest, parent: Option<&str>) -> (r: Result<Self, ValidationError>)
        ensures
            request.cell is None ==> (r matches Err(e) && is_required_error(e, "cell"@, opt_view(parent))),
            request.cell is Some && cell_request_valid(request.cell->0) ==> (r matches Ok(v)
                && cell_matches(v.cell, request.cell->0)),
            request.cell is Some && !cell_request_valid(request.cell->0) ==> (r matches Err(e)
                && cell_request_error(request.cell->0, e, Some(spec_field_name("cell"@, opt_view(parent))))),
    {
        let cell = required(request.cell, "cell", parent)?;
        let qualified = field_name("cell", parent);
        let cell = ValidatedCell::validate(cell, Some(qualified.as_str()))?;
        Ok(ValidatedCellServiceAllocateRequest { cell })
    }
}

impl ValidatedExecutable {
    /// What the executable is started from: its command runs as `sh -c <command>`.
    pub fn into_spec(self) -> (r: ExecutableSpec)
        ensures
            r.name@ == self.name@,
            r.description@ == self.description@,
            r.command.program@ == "sh"@,
            r.command.args@.len() == 2,
            r.command.args@[0]@ == "-c"@,
            r.command.args@[1]@ == self.command@,
    {
        let mut args: Vec<String> = Vec::new();
        args.push(String::from_str("-c"));
        args.push(self.command);
        ExecutableSpec {
            name: self.name,
            description: self.description,
            command: CommandSpec { program: String::from_str("sh"), args },
        }
    }
}

} // verus!
