//! Where the daemon runs: as the first process of a machine, nested in a
//! cell, as the init process of a container, or as an ordinary daemon.
use vstd::prelude::*;
use crate::text::{ends_with, is_suffix};

verus! {

/// The situation the daemon starts in.
#[derive(Debug, PartialEq, Eq, Structural, Copy, Clone)]
pub enum Context {
    /// The true first process of the machine.
    Pid1,
    /// Nested in a cell.
    Cell,
    /// The init process of a pod container.
    Container,
    /// An ordinary daemon on a host.
    Daemon,
}

/// The context for a nested flag, a process id and whether the process
/// sits in a cgroup namespace of its own: the namespace wins unless the
/// daemon is nested; then the nested flag; then process id 1.
pub open spec fn spec_derive_context(nested: bool, pid: u32, in_cgroup_namespace: bool) -> Context {
    if in_cgroup_namespace && !nested {
        Context::Container
    } else if nested {
        Context::Cell
    } else if pid == 1 {
        Context::Pid1
    } else {
        Context::Daemon
    }
}

/// Decides the context from what was detected.
pub fn derive_context(nested: bool, pid: u32, in_cgroup_namespace: bool) -> (r: Context)
    ensures
        r == spec_derive_context(nested, pid, in_cgroup_namespace),
{
    if in_cgroup_namespace && !nested {
        Context::Container
    } else if nested {
        Context::Cell
    } else if pid == 1 {
        Context::Pid1
    } else {
        Context::Daemon
    }
}

/// How the process id and the cgroup namespace are found out.
pub struct ContextDetectors<P, C> {
    pub pid_fn: P,
    pub in_cgroup_fn: C,
}

impl Context {
    /// Asks the detectors, the process id first, and decides the context
    /// from their answers.
    pub fn get_with_detectors<P: Fn() -> u32, C: Fn() -> bool>(nested: bool, detectors: ContextDetectors<P, C>) -> (r: Context)
        requires
            call_requires(detectors.pid_fn, ()),
            call_requires(detectors.in_cgroup_fn, ()),
        ensures
            exists|pid: u32, in_cgroup: bool|
                call_ensures(detectors.pid_fn, (), pid) && call_ensures(detectors.in_cgroup_fn, (), in_cgroup)
                    && r == spec_derive_context(nested, pid, in_cgroup),
    {
        let pid = (detectors.pid_fn)();
        let in_cgroup = (detectors.in_cgroup_fn)();
        derive_context(nested, pid, in_cgroup)
    }
}

/// The ending of `/proc/self/cgroup` inside a pod container of the runtime.
pub open spec fn container_cgroup_suffix() -> Seq<char> {
    "_aurae\n"@
}

/// Whether the contents of `/proc/self/cgroup` show a pod container of the
/// runtime: they end with `_aurae` and the line's newline.
pub fn in_aurae_container_cgroup(contents: &str) -> (r: bool)
    ensures
        r == is_suffix(container_cgroup_suffix(), contents@),
{
    ends_with(contents, "_aurae\n")
}

/// What the server sets up in a context.
#[derive(Debug, Clone, Copy)]
pub struct ServerFeatures {
    /// Serve over TLS with client certificates.
    pub tls: bool,
    /// Load the kernel probes that observe processes and signals.
    pub kernel_probes: bool,
}

/// A nested daemon serves without TLS; probes are loaded only on a host
/// (as the first process or as a daemon).
pub fn server_features(context: Context) -> (r: ServerFeatures)
    ensures
        r.tls == (context != Context::Cell),
        r.kernel_probes == (context == Context::Pid1 || context == Context::Daemon),
{
    let tls = match context {
        Context::Cell => false,
        _ => true,
    };
    let kernel_probes = match context {
        Context::Pid1 | Context::Daemon => true,
        _ => false,
    };
    ServerFeatures { tls, kernel_probes }
}

/// A nested daemon always runs as a cell, whatever its pid and cgroup
/// namespace; outside a cell, a cgroup namespace of its own makes it a
/// container even as process 1.
pub proof fn law_nesting_decides_first(pid: u32, in_cgroup_namespace: bool)
    ensures
        spec_derive_context(true, pid, in_cgroup_namespace) == Context::Cell,
        spec_derive_context(false, pid, true) == Context::Container,
        spec_derive_context(false, 1, false) == Context::Pid1,
        pid != 1 ==> spec_derive_context(false, pid, false) == Context::Daemon,
{
}

} // verus!
