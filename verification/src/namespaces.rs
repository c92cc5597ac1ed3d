//! Which namespaces a nested daemon shares with its parent, and what
//! unsharing the others takes.
use vstd::prelude::*;
use crate::isolation::{is_proc_request, is_root_private_request, proc_request, root_private_request, UnmountPlan};
use crate::mounts::{
    is_stable_sort_by_id, no_flags, opt_seq, plan_unmounts, unmount_targets, MountEntry,
    MountFlags, MountRequest, SkipTypes,
};
use crate::text::{concat, path_join, spec_path_join};

verus! {

/// Which of the six namespaces a process keeps in common with its parent.
#[derive(Debug, Clone, Copy)]
pub struct SharedNamespaces {
    pub mount: bool,
    pub uts: bool,
    pub ipc: bool,
    pub pid: bool,
    pub net: bool,
    pub cgroup: bool,
}

impl Default for SharedNamespaces {
    fn default() -> (r: Self)
        ensures
            !r.mount && !r.uts && !r.ipc && !r.pid && !r.net && !r.cgroup,
    {
        SharedNamespaces { mount: false, uts: false, ipc: false, pid: false, net: false, cgroup: false }
    }
}

/// A new root is needed unless both the mount and the pid namespace are
/// shared.
pub open spec fn needs_new_root(ns: SharedNamespaces) -> bool {
    !(ns.mount && ns.pid)
}

/// The path of the new root made from a unique id: `/ae-<id>`.
pub open spec fn new_root_path(id: Seq<char>) -> Seq<char> {
    "/ae-"@ + id
}

/// What preparing a new root takes, in order: create `root`, copy the
/// daemon binary into it, create the mount point directories, then make
/// the mounts.
#[derive(Debug, Clone)]
pub struct PrepPlan {
    pub root: String,
    pub copy_from: String,
    pub copy_to: String,
    pub dirs: Vec<String>,
    pub mounts: Vec<MountRequest>,
}

/// The directories made under the new root: `dev`, `sys`, `proc`, `bin`.
pub open spec fn prep_dirs(root: Seq<char>) -> Seq<Seq<char>> {
    seq![
        spec_path_join(root, "dev"@),
        spec_path_join(root, "sys"@),
        spec_path_join(root, "proc"@),
        spec_path_join(root, "bin"@),
    ]
}

/// A mount with the given parts.
pub open spec fn is_mount(r: MountRequest, source: Option<Seq<char>>, target: Seq<char>, fstype: Option<Seq<char>>, flags: MountFlags) -> bool {
    &&& opt_seq(r.source) == source
    &&& r.target@ == target
    &&& opt_seq(r.fstype) == fstype
    &&& r.flags == flags
    &&& r.data is None
}

/// The mounts of a new root: the root bound onto itself, then `devtmpfs`,
/// `sysfs` and `proc` in it, then `/bin` bound recursively.
pub open spec fn prep_mounts_ok(m: Seq<MountRequest>, root: Seq<char>) -> bool {
    let none = MountFlags { private: false, recursive: false, bind: false };
    &&& m.len() == 5
    &&& is_mount(m[0], Some(root), root, None, MountFlags { private: false, recursive: false, bind: true })
    &&& is_mount(m[1], None, spec_path_join(root, "dev"@), Some("devtmpfs"@), none)
    &&& is_mount(m[2], None, spec_path_join(root, "sys"@), Some("sysfs"@), none)
    &&& is_mount(m[3], Some("proc"@), spec_path_join(root, "proc"@), Some("proc"@), none)
    &&& is_mount(m[4], Some("/bin"@), spec_path_join(root, "bin"@), None, MountFlags { private: false, recursive: true, bind: true })
}

/// One step of pivoting into a new root.
#[derive(Debug, Clone)]
pub enum PivotStep {
    /// Make a mount.
    MakePrivate(MountRequest),
    /// Change the working directory.
    ChangeDir(String),
    /// Pivot the root.
    PivotRoot { new_root: String, put_old: String },
    /// Unmount lazily (detach).
    DetachUnmount(String),
}

/// Unshares the namespaces that are not shared, from inside the new process.
#[derive(Debug, Clone)]
pub struct Unshare {
    new_root: Option<String>,
}

fn mount(source: Option<String>, target: String, fstype: Option<String>, flags: MountFlags) -> (r: MountRequest)
    ensures
        r.source == source,
        r.target == target,
        r.fstype == fstype,
        r.flags == flags,
        r.data is None,
{
    MountRequest { source, target, fstype, flags, data: None }
}

impl Unshare {
    /// No new root yet.
    pub fn new() -> (r: Self)
        ensures
            r.new_root() is None,
    {
        Unshare { new_root: None }
    }

    /// The new root, once prepared.
    pub closed spec fn new_root(&self) -> Option<Seq<char>> {
        opt_seq(self.new_root)
    }

    /// Plans the new root in the parent, before the clone. Nothing is
    /// needed when both the mount and the pid namespace are shared;
    /// otherwise the root is `/ae-<id>`. The root is recorded only once the
    /// plan has been carried out, by [Unshare::record_new_root].
    pub fn prep(&self, shared: &SharedNamespaces, id: &str) -> (r: Option<PrepPlan>)
        ensures
            !needs_new_root(*shared) ==> r is None,
            needs_new_root(*shared) ==> (r matches Some(p) && {
                &&& p.root@ == new_root_path(id@)
                &&& p.copy_from@ == "/root/.cargo/bin/auraed"@
                &&& p.copy_to@ == spec_path_join(p.root@, "auraed"@)
                &&& p.dirs@.map_values(|d: String| d@) == prep_dirs(p.root@)
                &&& prep_mounts_ok(p.mounts@, p.root@)
            }),
    {
        if !(!shared.mount) && !(shared.mount && !shared.pid) {
            return None;
        }
        let root = concat("/ae-", id);
        let root_str = root.as_str();
        let mut dirs: Vec<String> = Vec::new();
        dirs.push(path_join(root_str, "dev"));
        dirs.push(path_join(root_str, "sys"));
        dirs.push(path_join(root_str, "proc"));
        dirs.push(path_join(root_str, "bin"));
        let none = MountFlags { private: false, recursive: false, bind: false };
        let mut mounts: Vec<MountRequest> = Vec::new();
        mounts.push(mount(Some(String::from_str(root_str)), String::from_str(root_str), None,
            MountFlags { private: false, recursive: false, bind: true }));
        mounts.push(mount(None, path_join(root_str, "dev"), Some(String::from_str("devtmpfs")), none));
        mounts.push(mount(None, path_join(root_str, "sys"), Some(String::from_str("sysfs")), none));
        mounts.push(mount(Some(String::from_str("proc")), path_join(root_str, "proc"),
            Some(String::from_str("proc")), none));
        mounts.push(mount(Some(String::from_str("/bin")), path_join(root_str, "bin"), None,
            MountFlags { private: false, recursive: true, bind: true }));
        let plan = PrepPlan {
            copy_from: String::from_str("/root/.cargo/bin/auraed"),
            copy_to: path_join(root_str, "auraed"),
            dirs,
            mounts,
            root: String::from_str(root_str),
        };
        proof {
            assert(plan.dirs@.map_values(|d: String| d@) =~= prep_dirs(plan.root@));
        }
        Some(plan)
    }

    /// Records the root of a carried out plan as the new root.
    pub fn record_new_root(&mut self, plan: &PrepPlan)
        ensures
            final(self).new_root() == Some(plan.root@),
    {
        self.new_root = Some(String::from_str(plan.root.as_str()));
    }

    /// Which inherited mounts to drop in a new mount namespace: nothing
    /// when the mount namespace is shared; otherwise `/` is made private and
    /// every mount except `/`, `proc` and `tmpfs` mounts and mounts under
    /// the new root is unmounted, inner mounts first.
    pub fn mount_namespace_unmount_with_exceptions(&mut self, shared: &SharedNamespaces, mounts: Vec<MountEntry>) -> (r: Option<UnmountPlan>)
        ensures
            final(self).new_root() == old(self).new_root(),
            shared.mount ==> r is None,
            !shared.mount ==> (r matches Some(p) && is_root_private_request(p.make_private, None)
                && exists|sorted: Seq<MountEntry>|
                    is_stable_sort_by_id(mounts@, sorted) && p.targets@.map_values(|s: String| s@)
                        == unmount_targets(sorted.reverse(), SkipTypes::ProcAndTmpfs, old(self).new_root())),
    {
        if shared.mount {
            return None;
        }
        let targets = match &self.new_root {
            Some(root) => plan_unmounts(mounts, SkipTypes::ProcAndTmpfs, Some(root.as_str())),
            None => plan_unmounts(mounts, SkipTypes::ProcAndTmpfs, None),
        };
        Some(UnmountPlan { make_private: root_private_request(false), targets })
    }

    /// The steps that give a new mount namespace a clean root by pivoting
    /// into the new root: none when the mount namespace is shared;
    /// otherwise make `/` private, change into the new root, pivot the old
    /// root below it, detach the old root and change to `/`.
    pub fn mount_namespace_pivot_root(&mut self, shared: &SharedNamespaces) -> (r: Option<Vec<PivotStep>>)
        requires
            !shared.mount ==> old(self).new_root() is Some,
        ensures
            final(self).new_root() == old(self).new_root(),
            shared.mount ==> r is None,
            !shared.mount ==> (r matches Some(steps) && steps@.len() == 5
                && (steps@[0] matches PivotStep::MakePrivate(m) && is_root_private_request(m, None))
                && (steps@[1] matches PivotStep::ChangeDir(d) && Some(d@) == old(self).new_root())
                && (steps@[2] matches PivotStep::PivotRoot { new_root: n, put_old: o } && n@ == "."@ && o@ == "."@)
                && (steps@[3] matches PivotStep::DetachUnmount(t) && t@ == "."@)
                && (steps@[4] matches PivotStep::ChangeDir(d) && d@ == "/"@)),
    {
        if shared.mount {
            return None;
        }
        let root = match &self.new_root {
            Some(root) => String::from_str(root.as_str()),
            None => String::from_str("/"),
        };
        let mut steps: Vec<PivotStep> = Vec::new();
        steps.push(PivotStep::MakePrivate(root_private_request(false)));
        steps.push(PivotStep::ChangeDir(root));
        steps.push(PivotStep::PivotRoot { new_root: String::from_str("."), put_old: String::from_str(".") });
        steps.push(PivotStep::DetachUnmount(String::from_str(".")));
        steps.push(PivotStep::ChangeDir(String::from_str("/")));
        Some(steps)
    }

    /// The `/proc` mount of a new pid namespace: none when the pid
    /// namespace is shared; over `/proc` when the mount namespace is not
    /// shared; under the new root otherwise.
    pub fn pid_namespace(&mut self, shared: &SharedNamespaces) -> (r: Option<MountRequest>)
        requires
            !shared.pid && shared.mount ==> old(self).new_root() is Some,
        ensures
            final(self).new_root() == old(self).new_root(),
            shared.pid ==> r is None,
            !shared.pid && !shared.mount ==> (r matches Some(m) && is_proc_request(m, "/proc"@)),
            !shared.pid && shared.mount ==> (r matches Some(m)
                && is_proc_request(m, spec_path_join(old(self).new_root()->0, "proc"@))),
    {
        if shared.pid {
            return None;
        }
        let target = if shared.mount {
            match &self.new_root {
                Some(root) => path_join(root.as_str(), "proc"),
                None => String::from_str("/proc"),
            }
        } else {
            String::from_str("/proc")
        };
        Some(proc_request(target))
    }

    /// A new network namespace needs no work here; it always succeeds.
    pub fn net_namespace(&mut self, shared: &SharedNamespaces) -> (r: std::io::Result<()>)
        ensures
            r is Ok,
            final(self).new_root() == old(self).new_root(),
    {
        if shared.net {
            return Ok(());
        }
        Ok(())
    }
}

/// A kind of namespace.
#[derive(Debug, Clone, Copy, PartialEq, Eq, Structural)]
pub enum NamespaceKind {
    Mount,
    Uts,
    Ipc,
    Pid,
    Net,
    Cgroup,
}

/// `kind` alone when it is not shared, else nothing.
pub open spec fn if_unshared(shared: bool, kind: NamespaceKind) -> Seq<NamespaceKind> {
    if shared { Seq::empty() } else { seq![kind] }
}

/// The namespaces to unshare, in the order mount, uts, ipc, pid, net,
/// cgroup: those that are not shared.
pub open spec fn spec_unshared(s: SharedNamespaces) -> Seq<NamespaceKind> {
    if_unshared(s.mount, NamespaceKind::Mount) + if_unshared(s.uts, NamespaceKind::Uts)
        + if_unshared(s.ipc, NamespaceKind::Ipc) + if_unshared(s.pid, NamespaceKind::Pid)
        + if_unshared(s.net, NamespaceKind::Net) + if_unshared(s.cgroup, NamespaceKind::Cgroup)
}

fn push_if_unshared(v: &mut Vec<NamespaceKind>, shared: bool, kind: NamespaceKind)
    ensures
        final(v)@ == old(v)@ + if_unshared(shared, kind),
{
    if !shared {
        v.push(kind);
    }
    proof {
        assert(final(v)@ =~= old(v)@ + if_unshared(shared, kind));
    }
}

/// The namespaces a new process of a cell unshares.
pub fn namespaces_to_unshare(s: &SharedNamespaces) -> (r: Vec<NamespaceKind>)
    ensures
        r@ == spec_unshared(*s),
{
    let mut v: Vec<NamespaceKind> = Vec::new();
    push_if_unshared(&mut v, s.mount, NamespaceKind::Mount);
    push_if_unshared(&mut v, s.uts, NamespaceKind::Uts);
    push_if_unshared(&mut v, s.ipc, NamespaceKind::Ipc);
    push_if_unshared(&mut v, s.pid, NamespaceKind::Pid);
    push_if_unshared(&mut v, s.net, NamespaceKind::Net);
    push_if_unshared(&mut v, s.cgroup, NamespaceKind::Cgroup);
    proof {
        assert(Seq::<NamespaceKind>::empty() + if_unshared(s.mount, NamespaceKind::Mount)
            =~= if_unshared(s.mount, NamespaceKind::Mount));
    }
    v
}

/// What a new process of a cell does before it runs its program.
#[derive(Debug, Clone)]
pub struct ExecPrep {
    /// The namespaces to unshare, in order.
    pub unshare: Vec<NamespaceKind>,
    /// A `proc` filesystem to mount afterwards.
    pub mount_proc: Option<MountRequest>,
}

/// A fresh `proc` filesystem on `/proc`, from the source `proc`.
pub open spec fn is_plain_proc_mount(m: MountRequest) -> bool {
    is_mount(m, Some("proc"@), "/proc"@, Some("proc"@), MountFlags { private: false, recursive: false, bind: false })
}

/// Whether `p` is the preparation of a new process of a cell with the
/// sharing `s`: see [pre_exec_plan].
pub open spec fn is_exec_prep(p: ExecPrep, s: SharedNamespaces, other_executable_running: bool) -> bool {
    &&& other_executable_running ==> p.unshare@.len() == 0 && p.mount_proc is None
    &&& !other_executable_running ==> p.unshare@ == spec_unshared(s)
    &&& !other_executable_running && !s.pid && !s.mount ==> (p.mount_proc matches Some(m) && is_plain_proc_mount(m))
    &&& !other_executable_running && (s.pid || s.mount) ==> p.mount_proc is None
}

/// The first process of a cell unshares the namespaces it does not share
/// and, when it shares neither the pid nor the mount namespace, mounts a
/// fresh `proc`. Later processes do nothing here: they do not yet join
/// the namespaces of the first.
pub fn pre_exec_plan(s: &SharedNamespaces, other_executable_running: bool) -> (r: ExecPrep)
    ensures
        is_exec_prep(r, *s, other_executable_running),
{
    if other_executable_running {
        return ExecPrep { unshare: Vec::new(), mount_proc: None };
    }
    let unshare = namespaces_to_unshare(s);
    let mount_proc = if !s.pid && !s.mount {
        Some(mount(Some(String::from_str("proc")), String::from_str("/proc"), Some(String::from_str("proc")),
            MountFlags { private: false, recursive: false, bind: false }))
    } else {
        None
    };
    ExecPrep { unshare, mount_proc }
}

/// The namespaces a nested daemon is cloned into: those it does not share,
/// in the order mount, uts, ipc, pid, net, cgroup.
pub open spec fn spec_clone_namespaces(shared: SharedNamespaces) -> Seq<NamespaceKind> {
    spec_unshared(shared)
}

/// The new namespaces of a nested daemon's clone.
pub fn clone_namespaces(shared: &SharedNamespaces) -> (r: Vec<NamespaceKind>)
    ensures
        r@ == spec_clone_namespaces(*shared),
{
    namespaces_to_unshare(shared)
}

/// A nested daemon is cloned into each of the six namespaces exactly when it
/// does not share it, every flag deciding on its own.
pub proof fn law_clone_namespaces_follow_each_flag(s: SharedNamespaces)
    ensures
        spec_clone_namespaces(s).contains(NamespaceKind::Mount) <==> !s.mount,
        spec_clone_namespaces(s).contains(NamespaceKind::Uts) <==> !s.uts,
        spec_clone_namespaces(s).contains(NamespaceKind::Ipc) <==> !s.ipc,
        spec_clone_namespaces(s).contains(NamespaceKind::Pid) <==> !s.pid,
        spec_clone_namespaces(s).contains(NamespaceKind::Net) <==> !s.net,
        spec_clone_namespaces(s).contains(NamespaceKind::Cgroup) <==> !s.cgroup,
        spec_clone_namespaces(s).len() <= 6,
{
    assert forall|k: NamespaceKind| #[trigger] spec_clone_namespaces(s).contains(k) <==> !shared_flag(s, k) by {
        let a = if_unshared(s.mount, NamespaceKind::Mount);
        let b = if_unshared(s.uts, NamespaceKind::Uts);
        let c = if_unshared(s.ipc, NamespaceKind::Ipc);
        let d = if_unshared(s.pid, NamespaceKind::Pid);
        let e = if_unshared(s.net, NamespaceKind::Net);
        let f = if_unshared(s.cgroup, NamespaceKind::Cgroup);
        lemma_concat_contains(a, b, k);
        lemma_concat_contains(a + b, c, k);
        lemma_concat_contains(a + b + c, d, k);
        lemma_concat_contains(a + b + c + d, e, k);
        lemma_concat_contains(a + b + c + d + e, f, k);
        lemma_if_unshared_contains(s.mount, NamespaceKind::Mount, k);
        lemma_if_unshared_contains(s.uts, NamespaceKind::Uts, k);
        lemma_if_unshared_contains(s.ipc, NamespaceKind::Ipc, k);
        lemma_if_unshared_contains(s.pid, NamespaceKind::Pid, k);
        lemma_if_unshared_contains(s.net, NamespaceKind::Net, k);
        lemma_if_unshared_contains(s.cgroup, NamespaceKind::Cgroup, k);
    }
    assert(shared_flag(s, NamespaceKind::Mount) == s.mount);
    assert(spec_clone_namespaces(s).contains(NamespaceKind::Mount) <==> !shared_flag(s, NamespaceKind::Mount));
    assert(spec_clone_namespaces(s).contains(NamespaceKind::Uts) <==> !shared_flag(s, NamespaceKind::Uts));
    assert(spec_clone_namespaces(s).contains(NamespaceKind::Ipc) <==> !shared_flag(s, NamespaceKind::Ipc));
    assert(spec_clone_namespaces(s).contains(NamespaceKind::Pid) <==> !shared_flag(s, NamespaceKind::Pid));
    assert(spec_clone_namespaces(s).contains(NamespaceKind::Net) <==> !shared_flag(s, NamespaceKind::Net));
    assert(spec_clone_namespaces(s).contains(NamespaceKind::Cgroup) <==> !shared_flag(s, NamespaceKind::Cgroup));
}

proof fn lemma_concat_contains(x: Seq<NamespaceKind>, y: Seq<NamespaceKind>, k: NamespaceKind)
    ensures
        (x + y).contains(k) <==> x.contains(k) || y.contains(k),
{
    if x.contains(k) {
        let i = choose|i: int| 0 <= i < x.len() && x[i] == k;
        assert((x + y)[i] == k);
    }
    if y.contains(k) {
        let i = choose|i: int| 0 <= i < y.len() && y[i] == k;
        assert((x + y)[x.len() + i] == k);
    }
    if (x + y).contains(k) {
        let i = choose|i: int| 0 <= i < (x + y).len() && (x + y)[i] == k;
        if i < x.len() {
            assert(x[i] == k);
        } else {
            assert(y[i - x.len()] == k);
        }
    }
}

proof fn lemma_if_unshared_contains(shared: bool, kind: NamespaceKind, k: NamespaceKind)
    ensures
        if_unshared(shared, kind).contains(k) <==> (!shared && kind == k),
{
    if !shared && kind == k {
        assert(if_unshared(shared, kind)[0] == k);
    }
}

/// Whether the namespace of kind `k` is shared.
pub open spec fn shared_flag(s: SharedNamespaces, k: NamespaceKind) -> bool {
    match k {
        NamespaceKind::Mount => s.mount,
        NamespaceKind::Uts => s.uts,
        NamespaceKind::Ipc => s.ipc,
        NamespaceKind::Pid => s.pid,
        NamespaceKind::Net => s.net,
        NamespaceKind::Cgroup => s.cgroup,
    }
}

/// The first process of a cell mounts a fresh `proc` on `/proc` exactly
/// when it shares neither the pid nor the mount namespace: sharing the mount
/// namespace never mounts `proc` over the host's. Later processes mount
/// nothing and unshare nothing.
pub proof fn law_proc_mounted_only_without_shared_pid_or_mount(p: ExecPrep, s: SharedNamespaces, other_running: bool)
    requires
        is_exec_prep(p, s, other_running),
    ensures
        p.mount_proc is Some <==> (!other_running && !s.pid && !s.mount),
        s.mount ==> p.mount_proc is None,
        p.mount_proc matches Some(m) ==> m.target@ == "/proc"@ && opt_seq(m.fstype) == Some("proc"@)
            && opt_seq(m.source) == Some("proc"@),
        other_running ==> p.unshare@.len() == 0,
        !other_running ==> forall|k: NamespaceKind| #[trigger] p.unshare@.contains(k) <==> !shared_flag(s, k),
{
    if !other_running {
        law_clone_namespaces_follow_each_flag(s);
        assert forall|k: NamespaceKind| #[trigger] p.unshare@.contains(k) <==> !shared_flag(s, k) by {
            assert(p.unshare@ == spec_clone_namespaces(s));
            match k {
                NamespaceKind::Mount => {},
                NamespaceKind::Uts => {},
                NamespaceKind::Ipc => {},
                NamespaceKind::Pid => {},
                NamespaceKind::Net => {},
                NamespaceKind::Cgroup => {},
            }
        }
    }
}

} // verus!
