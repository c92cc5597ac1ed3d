//! The isolation controls of a nested daemon: which mounts it makes and
//! which inherited mounts it drops.
use vstd::prelude::*;
use crate::mounts::{
    is_stable_sort_by_id, no_flags, opt_seq, plan_unmounts, private_recursive, unmount_targets,
    MountEntry, MountFlags, MountRequest, SkipTypes,
};
use crate::namespaces::SharedNamespaces;
use crate::validation::opt_view;

verus! {

#[verifier::external_type_specification]
#[verifier::external_body]
pub struct ExIoError(std::io::Error);

/// What a cell isolates from its host.
#[derive(Debug, Clone, Copy)]
pub struct IsolationControls {
    pub isolate_process: bool,
    pub isolate_network: bool,
}

impl Default for IsolationControls {
    fn default() -> (r: Self)
        ensures
            !r.isolate_process && !r.isolate_network,
    {
        IsolationControls { isolate_process: false, isolate_network: false }
    }
}

impl IsolationControls {
    /// The namespaces a daemon launched with these controls shares with its
    /// parent: isolating processes gives it its own mount, uts, ipc, pid and
    /// cgroup namespaces, isolating the network its own net namespace.
    pub fn shared_namespaces(&self) -> (r: SharedNamespaces)
        ensures
            r.mount == !self.isolate_process,
            r.uts == !self.isolate_process,
            r.ipc == !self.isolate_process,
            r.pid == !self.isolate_process,
            r.cgroup == !self.isolate_process,
            r.net == !self.isolate_network,
    {
        let p = !self.isolate_process;
        SharedNamespaces { mount: p, uts: p, ipc: p, pid: p, net: !self.isolate_network, cgroup: p }
    }
}

/// The mount that makes `/` and everything below it private, so that
/// changes do not reach the parent.
pub open spec fn is_root_private_request(r: MountRequest, source: Option<Seq<char>>) -> bool {
    &&& opt_seq(r.source) == source
    &&& r.target@ == "/"@
    &&& r.fstype is None
    &&& private_recursive(r.flags)
    &&& r.data is None
}

pub(crate) fn root_private_request(bind_source: bool) -> (r: MountRequest)
    ensures
        is_root_private_request(r, if bind_source { Some("/"@) } else { None }),
{
    MountRequest {
        source: if bind_source { Some(String::from_str("/")) } else { None },
        target: String::from_str("/"),
        fstype: None,
        flags: MountFlags { private: true, recursive: true, bind: false },
        data: None,
    }
}

/// A fresh `proc` filesystem mounted on `target`.
pub open spec fn is_proc_request(r: MountRequest, target: Seq<char>) -> bool {
    &&& opt_seq(r.source) == Some("/proc"@)
    &&& r.target@ == target
    &&& opt_seq(r.fstype) == Some("proc"@)
    &&& no_flags(r.flags)
    &&& r.data is None
}

pub(crate) fn proc_request(target: String) -> (r: MountRequest)
    ensures
        is_proc_request(r, target@),
{
    MountRequest {
        source: Some(String::from_str("/proc")),
        target,
        fstype: Some(String::from_str("proc")),
        flags: MountFlags { private: false, recursive: false, bind: false },
        data: None,
    }
}

/// What leaving the parent's mounts takes: make `/` private, then unmount
/// the listed mount points in order.
#[derive(Debug, Clone)]
pub struct UnmountPlan {
    pub make_private: MountRequest,
    pub targets: Vec<String>,
}

/// Applies the isolation controls inside a new cell.
#[derive(Debug, Clone)]
pub struct Isolation {
    new_root: Option<String>,
}

impl Isolation {
    /// No new root.
    pub fn new() -> (r: Self)
        ensures
            r.new_root() is None,
    {
        Isolation { new_root: None }
    }

    /// The root that the cell will use, if one was made.
    pub closed spec fn new_root(&self) -> Option<Seq<char>> {
        opt_seq(self.new_root)
    }

    /// The mount to make before isolating processes: when processes are
    /// isolated, bind mount `/` onto itself as private and recursive;
    /// otherwise nothing.
    pub fn setup(&mut self, iso_ctl: &IsolationControls) -> (r: Option<MountRequest>)
        ensures
            final(self).new_root() == old(self).new_root(),
            !iso_ctl.isolate_process ==> r is None,
            iso_ctl.isolate_process ==> (r matches Some(m) && is_root_private_request(m, Some("/"@))),
    {
        if !iso_ctl.isolate_process {
            return None;
        }
        Some(root_private_request(true))
    }

    /// The mount that gives isolated processes their own `/proc`; nothing
    /// when processes are not isolated.
    pub fn isolate_process(&mut self, iso_ctl: &IsolationControls) -> (r: Option<MountRequest>)
        ensures
            final(self).new_root() == old(self).new_root(),
            !iso_ctl.isolate_process ==> r is None,
            iso_ctl.isolate_process ==> (r matches Some(m) && is_proc_request(m, "/proc"@)),
    {
        if !iso_ctl.isolate_process {
            return None;
        }
        Some(proc_request(String::from_str("/proc")))
    }

    /// Network isolation needs no work here (the new network namespace
    /// comes from the clone flags); it always succeeds.
    pub fn isolate_network(&mut self, iso_ctl: &IsolationControls) -> (r: std::io::Result<()>)
        ensures
            r is Ok,
            final(self).new_root() == old(self).new_root(),
    {
        if !iso_ctl.isolate_network {
            return Ok(());
        }
        Ok(())
    }

    /// Which of the inherited mounts to drop: `/` is made private, then
    /// every mount except `/`, `tmpfs` and `procfs` mounts and mounts under
    /// the new root is unmounted, inner mounts first.
    pub fn mount_namespace_unmount_with_exceptions(&mut self, mounts: Vec<MountEntry>) -> (r: UnmountPlan)
        ensures
            final(self).new_root() == old(self).new_root(),
            is_root_private_request(r.make_private, None),
            exists|sorted: Seq<MountEntry>|
                is_stable_sort_by_id(mounts@, sorted) && r.targets@.map_values(|s: String| s@)
                    == unmount_targets(sorted.reverse(), SkipTypes::TmpfsAndProcfs, old(self).new_root()),
    {
        let targets = match &self.new_root {
            Some(root) => plan_unmounts(mounts, SkipTypes::TmpfsAndProcfs, Some(root.as_str())),
            None => plan_unmounts(mounts, SkipTypes::TmpfsAndProcfs, None),
        };
        UnmountPlan { make_private: root_private_request(false), targets }
    }
}

} // verus!
