use auraed::events::ObservedEventStream;
use auraed::observe::ObserveService;
use auraed::events::process_event;
use auraed::cgroup_cache::{CgroupCache, CgroupWalker};
use auraed::errors::StatusCode;
use auraed::observe::{
    accept_event, channel_type_from_i32, event_filter, reported_pid, str_eq_ignore_ascii_case, LogChannelType,
    ObserveServiceError, SubProcessChannels, WorkloadType,
};
use auraed::proc_cache::{Eviction, ProcCache, ProcessInfo};
use std::collections::HashMap;

const SECOND: u64 = 1_000_000_000;

#[test]
fn test_register_sub_process_channel_success() {
    let mut svc: SubProcessChannels<String> = SubProcessChannels::new();
    assert!(svc.register(42, LogChannelType::Stdout, String::from("foo")).is_ok());
    svc.clear();
}

#[test]
fn test_register_sub_process_channel_duplicate_error() {
    let mut svc: SubProcessChannels<String> = SubProcessChannels::new();
    assert!(svc.register(42, LogChannelType::Stdout, String::from("foo")).is_ok());
    assert!(svc.register(42, LogChannelType::Stdout, String::from("bar")).is_err());
    svc.clear();
}

#[test]
fn test_unregister_sub_process_channel_success() {
    let mut svc: SubProcessChannels<String> = SubProcessChannels::new();
    assert!(svc.register(42, LogChannelType::Stdout, String::from("foo")).is_ok());
    assert!(svc.unregister(42, LogChannelType::Stdout).is_ok());
    svc.clear();
}

#[test]
fn test_unregister_sub_process_channel_no_pid_error() {
    let mut svc: SubProcessChannels<String> = SubProcessChannels::new();
    assert!(svc.unregister(42, LogChannelType::Stdout).is_err());
    svc.clear();
}

#[test]
fn test_unregister_sub_process_channel_no_channel_type_error() {
    let mut svc: SubProcessChannels<String> = SubProcessChannels::new();
    assert!(svc.register(42, LogChannelType::Stdout, String::from("foo")).is_ok());
    assert!(svc.unregister(42, LogChannelType::Stderr).is_err());
    svc.clear();
}

#[test]
fn registry_errors_and_lookups() {
    let mut svc: SubProcessChannels<String> = SubProcessChannels::new();
    assert_eq!(svc.get(7, LogChannelType::Stdout), Err(ObserveServiceError::NoChannelsForPid { pid: 7 }));
    svc.register(7, LogChannelType::Stdout, String::from("out")).expect("register");
    assert_eq!(svc.get(7, LogChannelType::Stdout), Ok(&String::from("out")));
    assert_eq!(
        svc.register(7, LogChannelType::Stdout, String::from("again")),
        Err(ObserveServiceError::ChannelAlreadyRegistered { pid: 7, channel_type: LogChannelType::Stdout })
    );
    assert_eq!(
        svc.get(7, LogChannelType::Stderr),
        Err(ObserveServiceError::ChannelNotRegistered { pid: 7, channel_type: LogChannelType::Stderr })
    );
    svc.unregister(7, LogChannelType::Stdout).expect("unregister");
    // the pid keeps an empty entry: the channel is reported not registered
    assert_eq!(
        svc.get(7, LogChannelType::Stdout),
        Err(ObserveServiceError::ChannelNotRegistered { pid: 7, channel_type: LogChannelType::Stdout })
    );
    // registering again after unregistering works
    assert!(svc.register(7, LogChannelType::Stdout, String::from("back")).is_ok());
}

#[test]
fn observe_errors_map_to_statuses() {
    assert_eq!(
        ObserveServiceError::ChannelAlreadyRegistered { pid: 1, channel_type: LogChannelType::Stdout }.status_code(),
        StatusCode::Internal
    );
    assert_eq!(ObserveServiceError::NoChannelsForPid { pid: 1 }.status_code(), StatusCode::NotFound);
    assert_eq!(
        ObserveServiceError::ChannelNotRegistered { pid: 1, channel_type: LogChannelType::Stderr }.status_code(),
        StatusCode::NotFound
    );
    assert_eq!(ObserveServiceError::InvalidLogChannelType { channel_type: 9 }.status_code(), StatusCode::InvalidArgument);
}

#[test]
fn channel_types_parse_from_wire_values() {
    assert_eq!(channel_type_from_i32(0), Ok(LogChannelType::Unspecified));
    assert_eq!(channel_type_from_i32(1), Ok(LogChannelType::Stdout));
    assert_eq!(channel_type_from_i32(2), Ok(LogChannelType::Stderr));
    assert_eq!(channel_type_from_i32(3), Err(ObserveServiceError::InvalidLogChannelType { channel_type: 3 }));
}

#[test]
fn event_filters_match_cell_cgroups() {
    let f = event_filter(Some((WorkloadType::Cell, String::from("ae-1"))));
    assert!(f.match_cgroup_path);
    assert_eq!(f.cgroup_path, "/sys/fs/cgroup/ae-1/_");
    assert!(accept_event(&f, Some("/sys/fs/cgroup/AE-1/_")));
    assert!(!accept_event(&f, Some("/sys/fs/cgroup/ae-2/_")));
    assert!(!accept_event(&f, None));
    let all = event_filter(None);
    assert!(!all.match_cgroup_path);
    assert!(accept_event(&all, None));
    assert!(str_eq_ignore_ascii_case("AbC", "aBc"));
    assert!(!str_eq_ignore_ascii_case("abc", "abd"));
    assert_eq!(reported_pid(100, Some(7)), 7);
    assert_eq!(reported_pid(100, None), 100);
}

struct TestProcessInfo {
    nspid_lookup: HashMap<i32, i32>,
}

impl TestProcessInfo {
    fn new(test_data: Vec<(i32, i32)>) -> Self {
        let mut nspid_lookup = HashMap::new();
        for (pid, nspid) in test_data {
            let _ = nspid_lookup.insert(pid, nspid);
        }
        Self { nspid_lookup }
    }
}

impl ProcessInfo for TestProcessInfo {
    fn get_nspid(&self, pid: i32) -> Option<i32> {
        self.nspid_lookup.get(&pid).copied()
    }
}

#[test]
fn must_returm_none_for_non_existing_process() {
    let mut cache = ProcCache::new(5 * SECOND, 5 * SECOND);
    assert_eq!(cache.get(123, 0), None);
}

#[test]
fn must_create_cache_entry_for_a_new_process() {
    let info = TestProcessInfo::new(vec![(42, 2)]);
    let mut cache = ProcCache::new(5 * SECOND, 5 * SECOND);
    cache.on_process_fork(&info, 42);
    assert_eq!(cache.get(42, 0), Some(2));
}

#[test]
fn must_mark_entry_for_eviction_when_a_process_exits() {
    let info = TestProcessInfo::new(vec![(42, 2), (43, 3), (44, 4)]);
    let mut cache = ProcCache::new(5 * SECOND, 5 * SECOND);
    cache.on_process_fork(&info, 42);
    cache.on_process_fork(&info, 43);
    cache.on_process_fork(&info, 44);
    cache.on_process_exit(42, 0);
    assert_eq!(cache.get(42, 0), Some(2));
    cache.on_process_exit(44, 5 * SECOND);
    assert_eq!(
        cache.eviction_queue(),
        vec![Eviction { pid: 42, evict_at: 5 * SECOND }, Eviction { pid: 44, evict_at: 10 * SECOND }]
    );
}

#[test]
fn must_evict_expired_entries_from_cache_on_get() {
    let info = TestProcessInfo::new(vec![(42, 2), (43, 3), (44, 4), (45, 5)]);
    let mut cache = ProcCache::new(5 * SECOND, 5 * SECOND);
    for pid in [42, 43, 44, 45] {
        cache.on_process_fork(&info, pid);
    }
    cache.on_process_exit(42, 0);
    assert_eq!(cache.eviction_queue(), vec![Eviction { pid: 42, evict_at: 5 * SECOND }]);
    cache.on_process_exit(44, 2 * SECOND);
    assert_eq!(
        cache.eviction_queue(),
        vec![Eviction { pid: 42, evict_at: 5 * SECOND }, Eviction { pid: 44, evict_at: 7 * SECOND }]
    );
    cache.on_process_exit(45, 7 * SECOND);
    assert_eq!(
        cache.eviction_queue(),
        vec![
            Eviction { pid: 42, evict_at: 5 * SECOND },
            Eviction { pid: 44, evict_at: 7 * SECOND },
            Eviction { pid: 45, evict_at: 12 * SECOND }
        ]
    );
    let now = 7 * SECOND;
    assert_eq!(cache.get(42, now), None); // expired
    assert_eq!(cache.get(43, now), Some(3)); // never exited
    assert_eq!(cache.get(44, now), None); // expired
    assert_eq!(cache.get(45, now), Some(5)); // still queued for eviction
}

#[test]
fn must_honor_eviction_interval() {
    let info = TestProcessInfo::new(vec![(42, 2), (43, 3), (44, 4), (45, 5)]);
    let mut cache = ProcCache::new(5 * SECOND, 60 * SECOND);
    let _ = cache.get(1, 0);
    cache.on_process_fork(&info, 42);
    cache.on_process_exit(42, 0);
    assert_eq!(cache.eviction_queue(), vec![Eviction { pid: 42, evict_at: 5 * SECOND }]);
    let _ = cache.get(1, 6 * SECOND);
    assert_eq!(cache.eviction_queue(), vec![Eviction { pid: 42, evict_at: 5 * SECOND }]);
}

#[test]
fn unexited_process_stays_cached_through_eviction() {
    let info = TestProcessInfo::new(vec![(1, 10), (2, 20)]);
    let mut cache = ProcCache::new(SECOND, SECOND);
    cache.on_process_fork(&info, 1);
    cache.on_process_fork(&info, 2);
    cache.on_process_exit(2, 0);
    cache.evict_expired(100 * SECOND);
    assert!(cache.eviction_queue().is_empty());
    assert_eq!(cache.get(1, 100 * SECOND), Some(10));
    assert_eq!(cache.get(2, 100 * SECOND), None);
}

#[test]
fn forks_without_namespace_pid_are_not_cached() {
    let info = TestProcessInfo::new(vec![]);
    let mut cache = ProcCache::new(SECOND, SECOND);
    cache.on_process_fork(&info, 9);
    assert_eq!(cache.get(9, 0), None);
}

struct FakeWalker {
    entries: Vec<(u64, String)>,
    walks: usize,
}

impl CgroupWalker for FakeWalker {
    fn walk(&mut self, _root: &str) -> Vec<(u64, String)> {
        self.walks += 1;
        self.entries.clone()
    }
}

#[test]
fn get_must_return_none_when_file_doesnt_exist() {
    let mut cache = CgroupCache::new(String::from("/tmp"));
    let mut walker = FakeWalker { entries: Vec::new(), walks: 0 };
    assert_eq!(cache.get(&mut walker, 123), None);
}

#[test]
fn get_must_return_file_for_ino() {
    let mut cache = CgroupCache::new(String::from("/tmp"));
    let mut walker = FakeWalker {
        entries: vec![(11, String::from("/tmp/file1")), (12, String::from("/tmp/file2"))],
        walks: 0,
    };
    assert!(cache.get(&mut walker, 11).is_some());
    assert_eq!(cache.get(&mut walker, 11), Some(String::from("/tmp/file1")));
    assert_eq!(cache.get(&mut walker, 12), Some(String::from("/tmp/file2")));
    // both were found by the first walk
    assert_eq!(walker.walks, 1);
}

#[test]
fn events_are_filtered_and_mapped() {
    let info = TestProcessInfo::new(vec![(500, 5)]);
    let mut procs = ProcCache::new(SECOND, SECOND);
    procs.on_process_fork(&info, 500);
    let mut cgroups = CgroupCache::new(String::from("/sys/fs/cgroup"));
    let mut walker = FakeWalker { entries: vec![(77, String::from("/sys/fs/cgroup/ae-1/_"))], walks: 0 };
    let cell = event_filter(Some((WorkloadType::Cell, String::from("ae-1"))));
    assert_eq!(process_event(&cell, &mut cgroups, &mut walker, &mut procs, 77, 500, 0), Some(5));
    assert_eq!(process_event(&cell, &mut cgroups, &mut walker, &mut procs, 78, 500, 0), None);
    let all = event_filter(None);
    assert_eq!(process_event(&all, &mut cgroups, &mut walker, &mut procs, 78, 600, 0), Some(600));
}

#[test]
fn signals_are_reported_with_the_mapped_pid() {
    let r = auraed::events::posix_signal_response(9, 1234);
    assert_eq!(r.signal, 9);
    assert_eq!(r.process_id, 1234i64);
}

#[test]
fn observed_streams_filter_and_map() {
    let info = TestProcessInfo::new(vec![(500, 5)]);
    let mut procs = ProcCache::new(SECOND, SECOND);
    procs.on_process_fork(&info, 500);
    let mut cgroups = CgroupCache::new(String::from("/sys/fs/cgroup"));
    let mut walker = FakeWalker { entries: vec![(77, String::from("/sys/fs/cgroup/ae-1/_"))], walks: 0 };
    let mut stream = ObservedEventStream::new();
    assert_eq!(stream.handle(&mut cgroups, &mut walker, 1, 500, 0), Some(500));
    stream.filter_by_workload(Some((WorkloadType::Cell, String::from("ae-1"))));
    assert_eq!(stream.filter().cgroup_path, "/sys/fs/cgroup/ae-1/_");
    assert_eq!(stream.handle(&mut cgroups, &mut walker, 1, 500, 0), None);
    assert_eq!(stream.handle(&mut cgroups, &mut walker, 77, 500, 0), Some(500));
    stream.map_pids(procs);
    assert_eq!(stream.handle(&mut cgroups, &mut walker, 77, 500, 0), Some(5));
}

#[test]
fn observe_service_registers_and_guards_signals() {
    let mut svc: ObserveService<String> = ObserveService::new(false);
    assert_eq!(svc.check_posix_signals(), Err(StatusCode::Unimplemented));
    assert!(svc.register_sub_process_channel(42, LogChannelType::Stdout, String::from("foo")).is_ok());
    assert!(svc.register_sub_process_channel(42, LogChannelType::Stdout, String::from("bar")).is_err());
    assert!(svc.unregister_sub_process_channel(42, LogChannelType::Stdout).is_ok());
    assert!(svc.unregister_sub_process_channel(43, LogChannelType::Stdout).is_err());
    let host: ObserveService<String> = ObserveService::new(true);
    assert_eq!(host.check_posix_signals(), Ok(()));
}
