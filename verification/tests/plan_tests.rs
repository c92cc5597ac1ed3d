use auraed::network::{address_from_bytes, link_name, pid1_network_plan, IpAddress, LinkAttr, NetworkStep};
use auraed::commands::validate_command_line;
use auraed::namespaces::PivotStep;
use auraed::boot::{oci_layout, pid1_filesystem_plan, pid1_network_config, BootStep};
use auraed::cell_path::CellNamePath;
use auraed::commands::{command_from_string, validate_command};
use auraed::executables::ExecutablePhase;
use auraed::isolation::{Isolation, IsolationControls};
use auraed::logging::{env_filter, forward_step, logging_mode, output_channel_names, record_item, tracing_level, ForwardStep, LogLevel, LoggingMode};
use auraed::mounts::MountEntry;
use auraed::namespaces::{clone_namespaces, namespaces_to_unshare, pre_exec_plan, NamespaceKind, SharedNamespaces, Unshare};
use auraed::nested::nested_launch_with_ids;
use auraed::power::{decode_input_event, power_action, InputEvent, PowerAction, KEY_POWER, KEY_RESTART};
use auraed::requests::{CellRequest, CellServiceAllocateRequest, ValidatedCellServiceAllocateRequest};
use auraed::resources::CpuCpus;
use auraed::runtime_config::{local_socket_address, pid1_socket_address, AuraedRuntime, PodService};
use auraed::sriov::{parse_u16, sriov_numvfs_path, sriov_totalvfs_path, sriov_vfs_to_create, SriovError};
use auraed::validation::ValidationError;

fn event_bytes(code: u16) -> Vec<u8> {
    let mut b = Vec::new();
    b.extend_from_slice(&7u64.to_le_bytes());
    b.extend_from_slice(&9u64.to_le_bytes());
    b.extend_from_slice(&1u16.to_le_bytes());
    b.extend_from_slice(&code.to_le_bytes());
    b.extend_from_slice(&1u32.to_le_bytes());
    b
}

#[test]
fn input_events_decode_little_endian() {
    let e = decode_input_event(&event_bytes(KEY_POWER)).expect("a whole event");
    assert_eq!(e, InputEvent { tv_sec: 7, tv_usec: 9, evtype: 1, code: 116, value: 1 });
    assert_eq!(decode_input_event(&event_bytes(KEY_POWER)[..23]), None);
    assert_eq!(decode_input_event(&[0u8; 25]), None);
}

#[test]
fn power_keys_ask_for_power_actions() {
    let power = decode_input_event(&event_bytes(KEY_POWER)).expect("event");
    assert_eq!(power_action(&power), Some(PowerAction::PowerOff));
    let restart = decode_input_event(&event_bytes(KEY_RESTART)).expect("event");
    assert_eq!(restart.code, 0x198);
    assert_eq!(power_action(&restart), Some(PowerAction::Reboot));
    let other = decode_input_event(&event_bytes(30)).expect("event");
    assert_eq!(power_action(&other), None);
}

#[test]
fn u16_parsing_follows_str_parse() {
    for s in ["0", "7", "65535", "+12", "007", "", "+", "-1", "65536", "1a", " 1"] {
        assert_eq!(parse_u16(s), s.parse::<u16>().ok(), "input {s:?}");
    }
}

#[test]
fn sriov_creates_at_most_what_the_device_supports() {
    assert_eq!(sriov_vfs_to_create(4, String::from("8\n")).ok(), Some(4));
    assert_eq!(sriov_vfs_to_create(16, String::from("8\n")).ok(), Some(8));
    match sriov_vfs_to_create(4, String::from("lots\n")) {
        Err(SriovError::ParseCapabilitiesFailure { capabilities }) => assert_eq!(capabilities, "lots\n"),
        _ => panic!("expected a parse failure"),
    }
    assert_eq!(sriov_totalvfs_path("eth0"), "/sys/class/net/eth0/device/sriov_totalvfs");
    assert_eq!(sriov_numvfs_path("eth0"), "/sys/class/net/eth0/device/sriov_numvfs");
}

#[test]
fn logging_levels_and_modes() {
    assert_eq!(tracing_level(true), LogLevel::Trace);
    assert_eq!(tracing_level(false), LogLevel::Info);
    assert_eq!(env_filter(LogLevel::Trace), "auraed=TRACE");
    assert_eq!(env_filter(LogLevel::Info), "auraed=INFO");
    assert_eq!(logging_mode(true, 1), LoggingMode::Container);
    assert_eq!(logging_mode(false, 1), LoggingMode::Pid1);
    assert_eq!(logging_mode(false, 77), LoggingMode::Daemon);
    let item = record_item(LogLevel::Warn, "auraed::init", "hello");
    assert_eq!(item.channel, "rust-logs");
    assert_eq!(item.line, "WARN:auraed::init -- hello");
    assert_eq!(item.timestamp, 0);
    let (out, err) = output_channel_names("sleeper");
    assert_eq!(out, "sleeper::stdout");
    assert_eq!(err, "sleeper::stderr");
    assert_eq!(forward_step(ExecutablePhase::Init), ForwardStep::Wait);
    assert_eq!(forward_step(ExecutablePhase::Started), ForwardStep::Forward);
    assert_eq!(forward_step(ExecutablePhase::Stopped), ForwardStep::Finish);
}

#[test]
fn pid1_boot_plan_mounts_the_system() {
    let plan = pid1_filesystem_plan();
    assert_eq!(plan.len(), 11);
    match &plan[0] {
        BootStep::MakeDir { path, mode } => {
            assert_eq!(path, "/dev/pts");
            assert_eq!(*mode, 0o755);
        }
        _ => panic!("expected a directory first"),
    }
    match &plan[9] {
        BootStep::Mount { source, target, fstype, flags, data } => {
            assert_eq!(source, "cgroup2");
            assert_eq!(target, "/sys/fs/cgroup");
            assert_eq!(fstype, "cgroup2");
            assert!(flags.relatime && flags.nodev && flags.noexec && flags.nosuid);
            assert!(data.is_none());
        }
        _ => panic!("expected the cgroup mount"),
    }
    match &plan[6] {
        BootStep::Symlink { target, link } => {
            assert_eq!(target, "/proc/self/fd/0");
            assert_eq!(link, "/dev/stdin");
        }
        _ => panic!("expected a link"),
    }
    let net = pid1_network_config();
    assert_eq!((net.device.as_str(), net.address.as_str(), net.gateway.as_str(), net.subnet.as_str()), ("eth0", "fe80::2", "fe80::1", "/64"));
}

#[test]
fn oci_layout_places_the_binary_and_init() {
    let l = oci_layout("/tmp/out");
    assert_eq!(l.config, "/tmp/out/config.json");
    assert_eq!(
        l.dirs,
        vec!["/tmp/out/rootfs", "/tmp/out/rootfs/bin", "/tmp/out/rootfs/sys", "/tmp/out/rootfs/dev", "/tmp/out/rootfs/mnt", "/tmp/out/rootfs/proc"]
    );
    assert_eq!(l.binary, "/tmp/out/rootfs/bin/auraed");
    assert_eq!(l.init_link, "/tmp/out/rootfs/bin/init");
}

#[test]
fn runtime_paths_and_socket_addresses() {
    let rt = AuraedRuntime::default();
    assert_eq!(rt.ca_crt, "/etc/aurae/pki/ca.crt");
    assert_eq!(rt.server_crt, "/etc/aurae/pki/_signed.server.crt");
    assert_eq!(rt.server_key, "/etc/aurae/pki/server.key");
    assert_eq!(rt.library_dir, "/var/lib/aurae");
    assert_eq!(rt.bundles_dir(), "/var/run/aurae/bundles");
    assert_eq!(rt.pods_dir(), "/var/run/aurae/pods");
    assert_eq!(rt.default_socket_address(), "/var/run/aurae/aurae.sock");
    assert_eq!(pid1_socket_address(None), "[::]:8080");
    assert_eq!(pid1_socket_address(Some(String::from("127.0.0.1:1"))), "127.0.0.1:1");
    assert_eq!(local_socket_address(None, &rt), "/var/run/aurae/aurae.sock");
    assert_eq!(PodService::new(String::from("/var/run/aurae/")).bundles_path(), "/var/run/aurae/bundles");
}

#[test]
fn commands_split_on_spaces_and_drop_the_program() {
    let c = command_from_string("sh -c sh echo").expect("a command");
    assert_eq!(c.program, "sh");
    assert_eq!(c.args, vec!["-c", "echo"]);
    let single = command_from_string("sleep").expect("a command");
    assert_eq!(single.program, "sleep");
    assert!(single.args.is_empty());
}

#[test]
fn commands_for_processes_are_checked() {
    assert!(matches!(validate_command(String::new(), "command", None), Err(ValidationError::Required { .. })));
    match validate_command(String::from("a\0b"), "command", Some("executable")) {
        Err(ValidationError::Invalid { field }) => assert_eq!(field, "executable.command"),
        _ => panic!("expected an invalid command"),
    }
    assert_eq!(validate_command(String::from("ls -l"), "command", None).ok(), Some(String::from("ls -l")));
}

#[test]
fn namespaces_unshared_in_order() {
    let all = SharedNamespaces { mount: false, uts: false, ipc: false, pid: false, net: false, cgroup: false };
    assert_eq!(
        namespaces_to_unshare(&all),
        vec![NamespaceKind::Mount, NamespaceKind::Uts, NamespaceKind::Ipc, NamespaceKind::Pid, NamespaceKind::Net, NamespaceKind::Cgroup]
    );
    let none = SharedNamespaces { mount: true, uts: true, ipc: true, pid: true, net: true, cgroup: true };
    assert!(namespaces_to_unshare(&none).is_empty());
    let p = pre_exec_plan(&all, false);
    assert!(p.mount_proc.is_some());
    let m = p.mount_proc.expect("proc");
    assert_eq!(m.target, "/proc");
    assert_eq!(m.source.as_deref(), Some("proc"));
    let later = pre_exec_plan(&all, true);
    assert!(later.unshare.is_empty() && later.mount_proc.is_none());
    let shared_pid = SharedNamespaces { pid: true, ..all };
    assert!(pre_exec_plan(&shared_pid, false).mount_proc.is_none());
}

#[test]
fn nested_daemon_launch() {
    let shared = SharedNamespaces { mount: false, uts: true, ipc: true, pid: true, net: false, cgroup: true };
    let l = nested_launch_with_ids(&shared, "abc", "def");
    assert_eq!(l.socket, "/var/run/aurae/aurae-abc.sock");
    assert_eq!(l.program, "auraed");
    assert_eq!(l.current_dir, "/");
    assert_eq!(l.args, vec!["--socket", "/var/run/aurae/aurae-abc.sock", "--nested"]);
    assert_eq!(l.new_namespaces, vec![NamespaceKind::Mount, NamespaceKind::Net]);
    assert!(l.unmount_inherited);
    assert!(l.proc_mount.is_none());
    let prep = l.prep.expect("a new root");
    assert_eq!(prep.root, "/ae-def");
    assert_eq!(prep.dirs, vec!["/ae-def/dev", "/ae-def/sys", "/ae-def/proc", "/ae-def/bin"]);

    let all_shared = SharedNamespaces { mount: true, uts: true, ipc: true, pid: true, net: true, cgroup: true };
    let l2 = nested_launch_with_ids(&all_shared, "1b4e28ba-2fa1-11d2-883f-0016d3cca427", "x");
    assert!(l2.prep.is_none());
    assert!(l2.new_namespaces.is_empty());
    assert!(!l2.unmount_inherited);
    assert!(l2.proc_mount.is_none());
    assert_eq!(l2.socket, "/var/run/aurae/aurae-1b4e28ba-2fa1-11d2-883f-0016d3cca427.sock");
    let none_shared = SharedNamespaces::default();
    assert_eq!(
        clone_namespaces(&none_shared),
        vec![
            NamespaceKind::Mount,
            NamespaceKind::Uts,
            NamespaceKind::Ipc,
            NamespaceKind::Pid,
            NamespaceKind::Net,
            NamespaceKind::Cgroup,
        ]
    );
}

#[test]
fn nested_daemon_launch_with_own_pid_namespace() {
    let own_pid = SharedNamespaces { mount: true, uts: true, ipc: false, pid: false, net: true, cgroup: false };
    let l = nested_launch_with_ids(&own_pid, "s", "r");
    assert_eq!(l.new_namespaces, vec![NamespaceKind::Ipc, NamespaceKind::Pid, NamespaceKind::Cgroup]);
    assert!(!l.unmount_inherited);
    assert_eq!(l.prep.expect("a new root").root, "/ae-r");
    let m = l.proc_mount.expect("a proc mount");
    assert_eq!(m.target, "/ae-r/proc");
    assert_eq!(m.fstype.as_deref(), Some("proc"));

    let nothing_shared = SharedNamespaces::default();
    let l2 = nested_launch_with_ids(&nothing_shared, "s", "r");
    assert_eq!(l2.new_namespaces.len(), 6);
    assert!(l2.unmount_inherited);
    assert_eq!(l2.proc_mount.expect("a proc mount").target, "/proc");
}

#[test]
fn unmount_plans_keep_what_must_stay() {
    let mounts = vec![
        MountEntry { mnt_id: 1, fs_type: String::from("ext4"), mount_point: String::from("/") },
        MountEntry { mnt_id: 5, fs_type: String::from("tmpfs"), mount_point: String::from("/run") },
        MountEntry { mnt_id: 3, fs_type: String::from("sysfs"), mount_point: String::from("/sys") },
        MountEntry { mnt_id: 4, fs_type: String::from("ext4"), mount_point: String::from("/home") },
    ];
    let mut iso = Isolation::new();
    let plan = iso.mount_namespace_unmount_with_exceptions(mounts);
    assert_eq!(plan.targets, vec!["/home", "/sys"]);
    // inner mounts (higher ids) go first, whatever the table order
    let shuffled = vec![
        MountEntry { mnt_id: 3, fs_type: String::from("ext4"), mount_point: String::from("/a") },
        MountEntry { mnt_id: 9, fs_type: String::from("ext4"), mount_point: String::from("/b") },
        MountEntry { mnt_id: 5, fs_type: String::from("ext4"), mount_point: String::from("/c") },
    ];
    let plan2 = iso.mount_namespace_unmount_with_exceptions(shuffled);
    assert_eq!(plan2.targets, vec!["/b", "/c", "/a"]);
    assert_eq!(plan.make_private.target, "/");
    let ctl = IsolationControls { isolate_process: true, isolate_network: true };
    assert_eq!(iso.isolate_process(&ctl).expect("proc").target, "/proc");
    assert!(iso.setup(&IsolationControls { isolate_process: false, isolate_network: false }).is_none());
    assert!(iso.isolate_network(&ctl).is_ok());
}

#[test]
fn cell_paths_parse_and_join() {
    assert!(matches!(CellNamePath::validate(Some(String::new()), "cell_name", None), Ok(CellNamePath::Empty)));
    match CellNamePath::validate(Some(String::from("Bad_Name")), "cell_name", None) {
        Err(ValidationError::AllowRegexViolation { field, .. }) => assert_eq!(field, "cell_name"),
        _ => panic!("expected a pattern error"),
    }
    let p = CellNamePath::validate(Some(String::from("ae-1/ae-2/ae-3")), "cell_name", None).expect("path");
    let (first, rest) = p.into_child().expect("a child");
    assert_eq!(first.as_str(), "ae-1");
    assert_eq!(rest.into_string(), "ae-2/ae-3");
}

#[test]
fn allocate_requests_report_the_first_bad_field() {
    let cell = |name: &str, shares: u64, quota: i64| CellRequest {
        name: name.to_string(),
        cpu_cpus: vec![],
        cpu_shares: shares,
        cpu_mems: String::new(),
        cpu_quota: quota,
        ns_share_mount: false,
        ns_share_uts: false,
        ns_share_ipc: false,
        ns_share_pid: false,
        ns_share_net: false,
        ns_share_cgroup: false,
    };
    let validate = |c: Option<CellRequest>| ValidatedCellServiceAllocateRequest::validate(CellServiceAllocateRequest { cell: c }, None);
    assert!(matches!(validate(None), Err(ValidationError::Required { field }) if field == "cell"));
    assert!(matches!(validate(Some(cell("", 1, 1))), Err(ValidationError::Required { field }) if field == "cell.name"));
    assert!(matches!(validate(Some(cell("UPPER", 1, 1))), Err(ValidationError::AllowRegexViolation { field, .. }) if field == "cell.name"));
    assert!(matches!(validate(Some(cell("ok", 20000, 1))), Err(ValidationError::Maximum { field, .. }) if field == "cell.cpu_shares"));
    assert!(matches!(validate(Some(cell("ok", 1, 2000000))), Err(ValidationError::Maximum { field, .. }) if field == "cell.cpu_quota"));
    let v = validate(Some(cell("ok", 1, 2))).expect("valid");
    assert_eq!(v.cell.name.as_str(), "ok");
}

#[test]
fn network_plan_and_link_reports() {
    let plan = pid1_network_plan();
    assert_eq!(plan.len(), 6);
    match &plan[0] {
        NetworkStep::AddAddress { iface, address, prefix } => {
            assert_eq!((iface.as_str(), address.as_str(), *prefix), ("lo", "::1", 128));
        }
        _ => panic!("expected an address"),
    }
    match &plan[5] {
        NetworkStep::AddRouteV6 { iface, source, source_prefix, gateway } => {
            assert_eq!((iface.as_str(), source.as_str(), *source_prefix, gateway.as_str()), ("eth0", "::", 0, "fe80::1"));
        }
        _ => panic!("expected a route"),
    }
    let attrs = vec![LinkAttr::Other, LinkAttr::IfName(String::from("eth0")), LinkAttr::IfName(String::from("alias"))];
    assert_eq!(link_name(&attrs), Some(String::from("eth0")));
    assert_eq!(link_name(&vec![LinkAttr::Other]), None);
    assert_eq!(address_from_bytes(&vec![127, 0, 0, 1]), Some(IpAddress::V4(vec![127, 0, 0, 1])));
    assert_eq!(address_from_bytes(&vec![0; 16]), Some(IpAddress::V6(vec![0; 16])));
    assert_eq!(address_from_bytes(&vec![1, 2, 3]), None);
}

#[test]
fn command_lines_are_validated_then_split() {
    let c = validate_command_line(String::from("echo hi"), "command", None).expect("valid");
    assert_eq!(c.program, "echo");
    assert_eq!(c.args, vec!["hi"]);
    assert!(matches!(validate_command_line(String::new(), "command", None), Err(ValidationError::Required { .. })));
}

#[test]
fn pivot_root_steps() {
    let shared = SharedNamespaces::default();
    let mut unshare = Unshare::new();
    let plan = unshare.prep(&shared, "xyz").expect("a new root");
    unshare.record_new_root(&plan);
    let steps = unshare.mount_namespace_pivot_root(&shared).expect("steps");
    assert_eq!(steps.len(), 5);
    assert!(matches!(&steps[1], PivotStep::ChangeDir(d) if d == "/ae-xyz"));
    assert!(matches!(&steps[4], PivotStep::ChangeDir(d) if d == "/"));
    let all_shared = SharedNamespaces { mount: true, uts: true, ipc: true, pid: true, net: true, cgroup: true };
    assert!(unshare.mount_namespace_pivot_root(&all_shared).is_none());
    assert!(unshare.net_namespace(&shared).is_ok());
    assert_eq!(unshare.pid_namespace(&shared).expect("proc").target, "/proc");
}

#[test]
fn cell_path_round_trip_and_short_paths() {
    for text in ["", "ae-1", "ae-1/ae-2", "a/b/c/d"] {
        let p = CellNamePath::validate(Some(String::from(text)), "cell_name", None).expect("valid path");
        assert_eq!(p.into_string(), text);
    }
    match CellNamePath::validate(Some(String::from("ae-1/_")), "cell_name", None) {
        Ok(CellNamePath::CellName(n)) => assert_eq!(n.as_str(), "ae-1"),
        _ => panic!("expected a single cell"),
    }
    match CellNamePath::validate(Some(String::from("_/_")), "cell_name", None) {
        Err(ValidationError::AllowRegexViolation { field, .. }) => assert_eq!(field, "cell_name"),
        _ => panic!("expected a pattern error"),
    }
}

#[test]
fn cpu_lists_are_written_apart() {
    let texts: Vec<String> =
        [vec![], vec![1, 2], vec![12], vec![-1], vec![1, 23]].into_iter().map(|v| CpuCpus::new(v).as_string()).collect();
    assert_eq!(texts, vec!["", "1,2", "12", "-1", "1,23"]);
    for i in 0..texts.len() {
        for j in 0..texts.len() {
            assert_eq!(texts[i] == texts[j], i == j);
        }
    }
}

#[test]
fn isolation_controls_choose_the_shared_namespaces() {
    let s = IsolationControls { isolate_process: true, isolate_network: false }.shared_namespaces();
    assert!(!s.mount && !s.uts && !s.ipc && !s.pid && !s.cgroup && s.net);
    let t = IsolationControls { isolate_process: false, isolate_network: true }.shared_namespaces();
    assert!(t.mount && t.uts && t.ipc && t.pid && t.cgroup && !t.net);
}
