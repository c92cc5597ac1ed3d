//! Launching a daemon nested in a cell: its socket, its command line, the
//! namespaces it is cloned into, and the new root it may need.
use vstd::prelude::*;
use crate::isolation::is_proc_request;
use crate::mounts::MountRequest;
use crate::namespaces::{clone_namespaces, needs_new_root, prep_dirs, prep_mounts_ok, spec_clone_namespaces, NamespaceKind, PrepPlan, SharedNamespaces, Unshare};
use crate::text::spec_path_join;
use crate::text::{concat, views_of};

verus! {

/// The socket of a nested daemon: `/var/run/aurae/aurae-<id>.sock`.
pub open spec fn nested_socket_path(id: Seq<char>) -> Seq<char> {
    "/var/run/aurae/aurae-"@ + id + ".sock"@
}

/// How a nested daemon is launched.
#[derive(Debug)]
pub struct NestedLaunch {
    /// The socket it serves on, which clients are given.
    pub socket: String,
    /// The program run.
    pub program: String,
    /// Its working directory.
    pub current_dir: String,
    /// Its arguments.
    pub args: Vec<String>,
    /// The namespaces it is cloned into.
    pub new_namespaces: Vec<NamespaceKind>,
    /// The new root prepared for it, if it needs one.
    pub prep: Option<PrepPlan>,
    /// Whether, in the new process before it runs the program, the mounts it
    /// inherited are dropped, keeping those under the new root
    /// ([Unshare::mount_namespace_unmount_with_exceptions]).
    pub unmount_inherited: bool,
    /// The `proc` filesystem the new process mounts after that, for a new
    /// pid namespace ([Unshare::pid_namespace]).
    pub proc_mount: Option<MountRequest>,
}

/// The `proc` mount of a nested daemon that does not share the pid
/// namespace: over `/proc` when it does not share the mount namespace
/// either, else under the new root `root`.
pub open spec fn nested_proc_mount_ok(m: Option<MountRequest>, shared: SharedNamespaces, root: Seq<char>) -> bool {
    &&& shared.pid ==> m is None
    &&& !shared.pid && !shared.mount ==> (m matches Some(r) && is_proc_request(r, "/proc"@))
    &&& !shared.pid && shared.mount ==> (m matches Some(r) && is_proc_request(r, spec_path_join(root, "proc"@)))
}

/// The launch of a nested daemon for the given ids: the socket is named by
/// `socket_id`, the program `auraed` runs in `/` with `--socket <socket>
/// --nested`, each of the six namespaces it does not share is new, the new
/// root, when one is needed, is named by `root_id`, and before it runs the
/// program the new process drops its inherited mounts unless it shares the
/// mount namespace and mounts `proc` unless it shares the pid namespace.
pub fn nested_launch_with_ids(shared: &SharedNamespaces, socket_id: &str, root_id: &str) -> (r: NestedLaunch)
    ensures
        r.socket@ == nested_socket_path(socket_id@),
        r.program@ == "auraed"@,
        r.current_dir@ == "/"@,
        views_of(r.args@) == seq!["--socket"@, nested_socket_path(socket_id@), "--nested"@],
        r.new_namespaces@ == spec_clone_namespaces(*shared),
        needs_new_root(*shared) <==> r.prep is Some,
        r.prep matches Some(p) ==> {
            &&& p.root@ == "/ae-"@ + root_id@
            &&& p.copy_from@ == "/root/.cargo/bin/auraed"@
            &&& p.copy_to@ == spec_path_join(p.root@, "auraed"@)
            &&& p.dirs@.map_values(|d: String| d@) == prep_dirs(p.root@)
            &&& prep_mounts_ok(p.mounts@, p.root@)
        },
        r.unmount_inherited == !shared.mount,
        nested_proc_mount_ok(r.proc_mount, *shared, "/ae-"@ + root_id@),
{
    let a = concat("/var/run/aurae/aurae-", socket_id);
    let socket = concat(a.as_str(), ".sock");
    let mut args: Vec<String> = Vec::new();
    args.push(String::from_str("--socket"));
    args.push(String::from_str(socket.as_str()));
    args.push(String::from_str("--nested"));
    proof {
        assert(views_of(args@) =~= seq!["--socket"@, nested_socket_path(socket_id@), "--nested"@]);
    }
    let mut planned = Unshare::new();
    let prep = planned.prep(shared, root_id);
    if let Some(p) = &prep {
        planned.record_new_root(p);
    }
    let proc_mount = planned.pid_namespace(shared);
    NestedLaunch {
        socket,
        program: String::from_str("auraed"),
        current_dir: String::from_str("/"),
        args,
        new_namespaces: clone_namespaces(shared),
        prep,
        unmount_inherited: !shared.mount,
        proc_mount,
    }
}

} // verus!
