use auraed::context::{derive_context, in_aurae_container_cgroup, server_features, Context, ContextDetectors};

fn pid_one() -> u32 {
    1
}

fn pid_42() -> u32 {
    42
}

fn in_cgroup_true() -> bool {
    true
}

fn in_cgroup_false() -> bool {
    false
}

#[test]
fn context_get_should_respect_pid_and_nested_flag() {
    type PidFn = fn() -> u32;
    type CgroupFn = fn() -> bool;

    let cases: &[(bool, PidFn, CgroupFn, Context)] = &[
        (false, pid_one, in_cgroup_false, Context::Pid1),
        (true, pid_one, in_cgroup_false, Context::Cell),
        (false, pid_42, in_cgroup_true, Context::Container),
        (true, pid_42, in_cgroup_true, Context::Cell),
        (false, pid_42, in_cgroup_false, Context::Daemon),
    ];

    for &(nested, pid_fn, in_cgroup_fn, expected) in cases {
        assert_eq!(
            Context::get_with_detectors(nested, ContextDetectors { pid_fn, in_cgroup_fn }),
            expected,
            "nested={nested} pid_fn_ptr={:p} in_cgroup_fn_ptr={:p}",
            pid_fn,
            in_cgroup_fn
        );
    }
}

#[test]
fn context_get_prefers_container_when_in_cgroup_namespace() {
    assert_eq!(
        Context::get_with_detectors(false, ContextDetectors { pid_fn: pid_42, in_cgroup_fn: in_cgroup_true }),
        Context::Container
    );
    assert_eq!(
        Context::get_with_detectors(true, ContextDetectors { pid_fn: pid_42, in_cgroup_fn: in_cgroup_true }),
        Context::Cell
    );
}

#[test]
fn derive_context_covers_every_context() {
    assert_eq!(derive_context(false, 1, false), Context::Pid1);
    assert_eq!(derive_context(true, 1, false), Context::Cell);
    assert_eq!(derive_context(false, 42, true), Context::Container);
    assert_eq!(derive_context(false, 42, false), Context::Daemon);
    // the cgroup namespace wins over pid 1 outside a cell
    assert_eq!(derive_context(false, 1, true), Context::Container);
}

#[test]
fn nesting_decides_first_for_any_pid() {
    for pid in [0u32, 1, 2, 42, u32::MAX] {
        for in_cgroup in [false, true] {
            assert_eq!(derive_context(true, pid, in_cgroup), Context::Cell);
        }
    }
}

#[test]
fn container_cgroup_contents_are_recognised() {
    assert!(in_aurae_container_cgroup("0::/_aurae\n"));
    assert!(!in_aurae_container_cgroup("0::/_aurae"));
    assert!(!in_aurae_container_cgroup("0::/../../../ae-1/_\n"));
    assert!(!in_aurae_container_cgroup("0::/init.scope\n"));
    assert!(!in_aurae_container_cgroup("0::/user.slice/user-1000.slice/session-3.scope\n"));
    assert!(!in_aurae_container_cgroup(""));
}

#[test]
fn server_features_follow_the_context() {
    let cell = server_features(Context::Cell);
    assert!(!cell.tls);
    assert!(!cell.kernel_probes);
    let container = server_features(Context::Container);
    assert!(container.tls);
    assert!(!container.kernel_probes);
    let pid1 = server_features(Context::Pid1);
    assert!(pid1.tls);
    assert!(pid1.kernel_probes);
    let daemon = server_features(Context::Daemon);
    assert!(daemon.tls);
    assert!(daemon.kernel_probes);
}
