//! Observation: the log channels registered for sub-processes, and which
//! kernel events a subscriber of a workload gets to see.
use vstd::prelude::*;
use std::collections::HashMap;
use crate::errors::StatusCode;
use crate::text::{chars_of, string_push};

verus! {

broadcast use vstd::std_specs::hash::group_hash_axioms;

/// The output stream a log channel carries.
#[derive(Debug, Clone, Copy, PartialEq, Eq)]
pub enum LogChannelType {
    Unspecified,
    Stdout,
    Stderr,
}

impl LogChannelType {
    /// The channel type with wire value `v`, if there is one.
    pub fn from_i32(v: i32) -> (r: Option<LogChannelType>)
        ensures
            v == 0 ==> r == Some(LogChannelType::Unspecified),
            v == 1 ==> r == Some(LogChannelType::Stdout),
            v == 2 ==> r == Some(LogChannelType::Stderr),
            !(0 <= v <= 2) ==> r is None,
    {
        match v {
            0 => Some(LogChannelType::Unspecified),
            1 => Some(LogChannelType::Stdout),
            2 => Some(LogChannelType::Stderr),
            _ => None,
        }
    }
}

/// Why a request to the observe service failed.
#[derive(Debug, Clone, PartialEq, Eq)]
pub enum ObserveServiceError {
    ChannelAlreadyRegistered { pid: i32, channel_type: LogChannelType },
    NoChannelsForPid { pid: i32 },
    ChannelNotRegistered { pid: i32, channel_type: LogChannelType },
    InvalidLogChannelType { channel_type: i32 },
}

impl ObserveServiceError {
    /// The status the service answers with: an already registered channel
    /// is an internal error, a missing one is not found, and an unknown
    /// channel type an invalid argument.
    pub fn status_code(&self) -> (r: StatusCode)
        ensures
            self is ChannelAlreadyRegistered ==> r == StatusCode::Internal,
            self is NoChannelsForPid ==> r == StatusCode::NotFound,
            self is ChannelNotRegistered ==> r == StatusCode::NotFound,
            self is InvalidLogChannelType ==> r == StatusCode::InvalidArgument,
    {
        match self {
            ObserveServiceError::ChannelAlreadyRegistered { .. } => StatusCode::Internal,
            ObserveServiceError::NoChannelsForPid { .. } | ObserveServiceError::ChannelNotRegistered { .. } => StatusCode::NotFound,
            ObserveServiceError::InvalidLogChannelType { .. } => StatusCode::InvalidArgument,
        }
    }
}

/// Parses a channel type from its wire value.
pub fn channel_type_from_i32(v: i32) -> (r: Result<LogChannelType, ObserveServiceError>)
    ensures
        v == 0 ==> r == Ok::<LogChannelType, ObserveServiceError>(LogChannelType::Unspecified),
        v == 1 ==> r == Ok::<LogChannelType, ObserveServiceError>(LogChannelType::Stdout),
        v == 2 ==> r == Ok::<LogChannelType, ObserveServiceError>(LogChannelType::Stderr),
        !(0 <= v <= 2) ==> r == Err::<LogChannelType, ObserveServiceError>(
            ObserveServiceError::InvalidLogChannelType { channel_type: v }),
{
    match LogChannelType::from_i32(v) {
        Some(t) => Ok(t),
        None => Err(ObserveServiceError::InvalidLogChannelType { channel_type: v }),
    }
}

/// The channels of one process, one per channel type.
pub struct PidChannels<C> {
    unspecified: Option<C>,
    stdout: Option<C>,
    stderr: Option<C>,
}

pub open spec fn opt_entry<C>(m: Map<LogChannelType, C>, t: LogChannelType, o: Option<C>) -> Map<LogChannelType, C> {
    match o {
        Some(c) => m.insert(t, c),
        None => m,
    }
}

impl<C> PidChannels<C> {
    /// The channels by type.
    pub closed spec fn view_map(&self) -> Map<LogChannelType, C> {
        opt_entry(
            opt_entry(opt_entry(Map::empty(), LogChannelType::Unspecified, self.unspecified),
                LogChannelType::Stdout, self.stdout),
            LogChannelType::Stderr, self.stderr)
    }

    fn empty() -> (r: Self)
        ensures
            r.view_map() == Map::<LogChannelType, C>::empty(),
    {
        PidChannels { unspecified: None, stdout: None, stderr: None }
    }

    fn slot(&self, t: LogChannelType) -> (r: &Option<C>)
        ensures
            r is Some <==> self.view_map().contains_key(t),
            r matches Some(c) ==> self.view_map()[t] == c,
    {
        match t {
            LogChannelType::Unspecified => &self.unspecified,
            LogChannelType::Stdout => &self.stdout,
            LogChannelType::Stderr => &self.stderr,
        }
    }

    fn set(&mut self, t: LogChannelType, c: Option<C>)
        ensures
            c matches Some(v) ==> final(self).view_map() == old(self).view_map().insert(t, v),
            c is None ==> final(self).view_map() == old(self).view_map().remove(t),
    {
        match t {
            LogChannelType::Unspecified => { self.unspecified = c; },
            LogChannelType::Stdout => { self.stdout = c; },
            LogChannelType::Stderr => { self.stderr = c; },
        }
        proof {
            assert(c matches Some(v) ==> final(self).view_map() =~= old(self).view_map().insert(t, v));
            assert(c is None ==> final(self).view_map() =~= old(self).view_map().remove(t));
        }
    }
}

/// The channels registered for `pid`, by type (none if it has no entry).
pub open spec fn channels_of<C>(reg: Map<i32, Map<LogChannelType, C>>, pid: i32) -> Map<LogChannelType, C> {
    if reg.contains_key(pid) { reg[pid] } else { Map::empty() }
}

/// The registry once `channel` is registered as the `t` channel of `pid`.
pub open spec fn registry_with<C>(reg: Map<i32, Map<LogChannelType, C>>, pid: i32, t: LogChannelType, channel: C) -> Map<i32, Map<LogChannelType, C>> {
    reg.insert(pid, channels_of(reg, pid).insert(t, channel))
}

/// The registry once the `t` channel of `pid` is unregistered.
pub open spec fn registry_without<C>(reg: Map<i32, Map<LogChannelType, C>>, pid: i32, t: LogChannelType) -> Map<i32, Map<LogChannelType, C>> {
    reg.insert(pid, channels_of(reg, pid).remove(t))
}

/// The log channels registered for sub-processes, by pid and channel type.
pub struct SubProcessChannels<C> {
    channels: HashMap<i32, PidChannels<C>>,
}

impl<C> SubProcessChannels<C> {
    /// The registered channels: for each pid that ever had one registered,
    /// its channels by type.
    pub closed spec fn registry(&self) -> Map<i32, Map<LogChannelType, C>> {
        Map::new(|pid: i32| self.channels@.contains_key(pid), |pid: i32| self.channels@[pid].view_map())
    }

    /// No channels.
    pub fn new() -> (r: Self)
        ensures
            r.registry() == Map::<i32, Map<LogChannelType, C>>::empty(),
    {
        let r = SubProcessChannels { channels: HashMap::new() };
        proof {
            assert(r.registry() =~= Map::<i32, Map<LogChannelType, C>>::empty());
        }
        r
    }

    /// Registers `channel` as the `channel_type` channel of `pid`. A pid
    /// gets an (empty) entry on its first registration; a channel type that
    /// is already registered for the pid is refused.
    pub fn register(&mut self, pid: i32, channel_type: LogChannelType, channel: C) -> (r: Result<(), ObserveServiceError>)
        ensures
            channels_of(old(self).registry(), pid).contains_key(channel_type) ==> r == Err::<(), ObserveServiceError>(
                ObserveServiceError::ChannelAlreadyRegistered { pid, channel_type })
                && final(self).registry() == old(self).registry(),
            !channels_of(old(self).registry(), pid).contains_key(channel_type) ==> r is Ok && final(self).registry()
                == registry_with(old(self).registry(), pid, channel_type, channel),
    {
        let mut entry = match self.channels.remove(&pid) {
            Some(e) => e,
            None => PidChannels::empty(),
        };
        let taken = entry.slot(channel_type).is_some();
        if taken {
            let _ = self.channels.insert(pid, entry);
            proof {
                assert(self.registry() =~= old(self).registry());
            }
            return Err(ObserveServiceError::ChannelAlreadyRegistered { pid, channel_type });
        }
        entry.set(channel_type, Some(channel));
        let _ = self.channels.insert(pid, entry);
        proof {
            let before = if old(self).registry().contains_key(pid) {
                old(self).registry()[pid]
            } else {
                Map::<LogChannelType, C>::empty()
            };
            assert(self.registry() =~= old(self).registry().insert(pid, before.insert(channel_type, channel)));
        }
        Ok(())
    }

    /// Unregisters the `channel_type` channel of `pid`. A pid with no entry
    /// and a channel type not registered for the pid are refused; the pid
    /// keeps its entry, possibly empty.
    pub fn unregister(&mut self, pid: i32, channel_type: LogChannelType) -> (r: Result<(), ObserveServiceError>)
        ensures
            !old(self).registry().contains_key(pid) ==> r == Err::<(), ObserveServiceError>(
                ObserveServiceError::NoChannelsForPid { pid }) && final(self).registry() == old(self).registry(),
            old(self).registry().contains_key(pid) && !old(self).registry()[pid].contains_key(channel_type)
                ==> r == Err::<(), ObserveServiceError>(ObserveServiceError::ChannelNotRegistered { pid, channel_type })
                && final(self).registry() == old(self).registry(),
            old(self).registry().contains_key(pid) && old(self).registry()[pid].contains_key(channel_type)
                ==> r is Ok && final(self).registry() == registry_without(old(self).registry(), pid, channel_type),
    {
        let mut entry = match self.channels.remove(&pid) {
            Some(e) => e,
            None => {
                return Err(ObserveServiceError::NoChannelsForPid { pid });
            },
        };
        let present = entry.slot(channel_type).is_some();
        if !present {
            let _ = self.channels.insert(pid, entry);
            proof {
                assert(self.registry() =~= old(self).registry());
            }
            return Err(ObserveServiceError::ChannelNotRegistered { pid, channel_type });
        }
        entry.set(channel_type, None);
        let _ = self.channels.insert(pid, entry);
        proof {
            assert(self.registry() =~= old(self).registry().insert(pid, old(self).registry()[pid].remove(channel_type)));
        }
        Ok(())
    }

    /// The `channel_type` channel of `pid`.
    pub fn get(&self, pid: i32, channel_type: LogChannelType) -> (r: Result<&C, ObserveServiceError>)
        ensures
            !self.registry().contains_key(pid) ==> r == Err::<&C, ObserveServiceError>(
                ObserveServiceError::NoChannelsForPid { pid }),
            self.registry().contains_key(pid) && !self.registry()[pid].contains_key(channel_type)
                ==> r == Err::<&C, ObserveServiceError>(ObserveServiceError::ChannelNotRegistered { pid, channel_type }),
            self.registry().contains_key(pid) && self.registry()[pid].contains_key(channel_type)
                ==> r == Ok::<&C, ObserveServiceError>(&self.registry()[pid][channel_type]),
    {
        match self.channels.get(&pid) {
            None => Err(ObserveServiceError::NoChannelsForPid { pid }),
            Some(entry) => match entry.slot(channel_type) {
                Some(c) => Ok(c),
                None => Err(ObserveServiceError::ChannelNotRegistered { pid, channel_type }),
            },
        }
    }

    /// Drops every registration.
    pub fn clear(&mut self)
        ensures
            final(self).registry() == Map::<i32, Map<LogChannelType, C>>::empty(),
    {
        self.channels.clear();
        proof {
            assert(self.registry() =~= Map::<i32, Map<LogChannelType, C>>::empty());
        }
    }
}

} // verus!

verus! {

/// The code of a character with ASCII upper-case letters lowered.
pub open spec fn ascii_lower_code(c: char) -> int {
    if 65 <= (c as int) <= 90 {
        (c as int) + 32
    } else {
        c as int
    }
}

/// Equality of two texts up to the case of ASCII letters.
pub open spec fn eq_ignore_ascii_case(a: Seq<char>, b: Seq<char>) -> bool {
    &&& a.len() == b.len()
    &&& forall|i: int| 0 <= i < a.len() ==> ascii_lower_code(#[trigger] a[i]) == ascii_lower_code(b[i])
}

fn lower_code(c: char) -> (r: u32)
    ensures
        r as int == ascii_lower_code(c),
{
    let v = c as u32;
    if 65 <= v && v <= 90 {
        v + 32
    } else {
        v
    }
}

/// Whether `a` and `b` are equal up to the case of ASCII letters.
pub fn str_eq_ignore_ascii_case(a: &str, b: &str) -> (r: bool)
    ensures
        r == eq_ignore_ascii_case(a@, b@),
{
    let x = chars_of(a);
    let y = chars_of(b);
    if x.len() != y.len() {
        return false;
    }
    let mut i: usize = 0;
    while i < x.len()
        invariant
            x@ == a@,
            y@ == b@,
            x.len() == y.len(),
            i <= x.len(),
            forall|k: int| 0 <= k < i ==> ascii_lower_code(#[trigger] x@[k]) == ascii_lower_code(y@[k]),
        decreases x.len() - i,
    {
        if lower_code(x[i]) != lower_code(y[i]) {
            return false;
        }
        i = i + 1;
    }
    true
}

/// The kinds of workload a subscriber can filter on.
#[derive(Debug, Clone, Copy, PartialEq, Eq)]
pub enum WorkloadType {
    Unspecified,
    Cell,
    Pod,
}

/// The leaf cgroup of a cell, where its processes run: `/sys/fs/cgroup/<id>/_`.
pub open spec fn cell_cgroup_path(id: Seq<char>) -> Seq<char> {
    "/sys/fs/cgroup/"@ + id + "/_"@
}

/// Builds the leaf cgroup path of a cell.
pub fn cell_cgroup_path_of(id: &str) -> (r: String)
    ensures
        r@ == cell_cgroup_path(id@),
{
    let mut s = String::from_str("/sys/fs/cgroup/");
    s.append(id);
    s.append("/_");
    s
}

/// What a subscription filters on: for a cell workload, the cell's leaf
/// cgroup path; otherwise nothing (every event is accepted).
#[derive(Debug, Clone)]
pub struct EventFilter {
    pub match_cgroup_path: bool,
    pub cgroup_path: String,
}

/// The filter for a workload.
pub fn event_filter(workload: Option<(WorkloadType, String)>) -> (r: EventFilter)
    ensures
        (workload matches Some((WorkloadType::Cell, id))) ==> r.match_cgroup_path
            && r.cgroup_path@ == cell_cgroup_path((workload->0).1@),
        !(workload matches Some((WorkloadType::Cell, _))) ==> !r.match_cgroup_path && r.cgroup_path@.len() == 0,
{
    match workload {
        Some((WorkloadType::Cell, id)) => EventFilter {
            match_cgroup_path: true,
            cgroup_path: cell_cgroup_path_of(id.as_str()),
        },
        _ => EventFilter { match_cgroup_path: false, cgroup_path: String::new() },
    }
}

pub open spec fn opt_str_seq(o: Option<&str>) -> Option<Seq<char>> {
    match o {
        Some(s) => Some(s@),
        None => None,
    }
}

/// Whether an event passes a filter, given the cgroup path of the event's
/// cgroup (if it could be found): without a cgroup filter every event
/// passes; with one, only events whose cgroup path equals the filter's up
/// to ASCII case.
pub fn accept_event(filter: &EventFilter, event_cgroup_path: Option<&str>) -> (r: bool)
    ensures
        !filter.match_cgroup_path ==> r,
        filter.match_cgroup_path ==> r == (opt_str_seq(event_cgroup_path) matches Some(p)
            && eq_ignore_ascii_case(p, filter.cgroup_path@)),
{
    if !filter.match_cgroup_path {
        return true;
    }
    match event_cgroup_path {
        Some(p) => str_eq_ignore_ascii_case(p, filter.cgroup_path.as_str()),
        None => false,
    }
}

/// The pid reported for an event: its namespace pid when the process cache
/// knows one, its host pid otherwise.
pub fn reported_pid(host_pid: i32, namespace_pid: Option<i32>) -> (r: i32)
    ensures
        namespace_pid matches Some(n) ==> r == n,
        namespace_pid is None ==> r == host_pid,
{
    match namespace_pid {
        Some(n) => n,
        None => host_pid,
    }
}

/// The observe service: the log channels of sub-processes, and whether
/// this daemon can report POSIX signals (a nested daemon cannot).
pub struct ObserveService<C> {
    sub_process_channels: SubProcessChannels<C>,
    posix_signals: bool,
}

impl<C> ObserveService<C> {
    /// The registered channels.
    pub closed spec fn registry(&self) -> Map<i32, Map<LogChannelType, C>> {
        self.sub_process_channels.registry()
    }

    /// Whether signals can be reported.
    pub closed spec fn reports_signals(&self) -> bool {
        self.posix_signals
    }

    /// A service with no channels.
    pub fn new(posix_signals: bool) -> (r: Self)
        ensures
            r.registry() == Map::<i32, Map<LogChannelType, C>>::empty(),
            r.reports_signals() == posix_signals,
    {
        ObserveService { sub_process_channels: SubProcessChannels::new(), posix_signals }
    }

    /// Registers a channel of a sub-process (see [SubProcessChannels::register]).
    pub fn register_sub_process_channel(&mut self, pid: i32, channel_type: LogChannelType, channel: C) -> (r: Result<(), ObserveServiceError>)
        ensures
            final(self).reports_signals() == old(self).reports_signals(),
            channels_of(old(self).registry(), pid).contains_key(channel_type) ==> r == Err::<(), ObserveServiceError>(
                ObserveServiceError::ChannelAlreadyRegistered { pid, channel_type })
                && final(self).registry() == old(self).registry(),
            !channels_of(old(self).registry(), pid).contains_key(channel_type) ==> r is Ok && final(self).registry()
                == registry_with(old(self).registry(), pid, channel_type, channel),
    {
        self.sub_process_channels.register(pid, channel_type, channel)
    }

    /// Unregisters a channel of a sub-process (see [SubProcessChannels::unregister]).
    pub fn unregister_sub_process_channel(&mut self, pid: i32, channel_type: LogChannelType) -> (r: Result<(), ObserveServiceError>)
        ensures
            final(self).reports_signals() == old(self).reports_signals(),
            !old(self).registry().contains_key(pid) ==> r == Err::<(), ObserveServiceError>(
                ObserveServiceError::NoChannelsForPid { pid }) && final(self).registry() == old(self).registry(),
            old(self).registry().contains_key(pid) && !old(self).registry()[pid].contains_key(channel_type)
                ==> r == Err::<(), ObserveServiceError>(ObserveServiceError::ChannelNotRegistered { pid, channel_type })
                && final(self).registry() == old(self).registry(),
            old(self).registry().contains_key(pid) && old(self).registry()[pid].contains_key(channel_type)
                ==> r is Ok && final(self).registry() == registry_without(old(self).registry(), pid, channel_type),
    {
        self.sub_process_channels.unregister(pid, channel_type)
    }

    /// A request for the signal stream is refused as unimplemented when this
    /// daemon cannot report signals.
    pub fn check_posix_signals(&self) -> (r: Result<(), StatusCode>)
        ensures
            self.reports_signals() ==> r is Ok,
            !self.reports_signals() ==> r == Err::<(), StatusCode>(StatusCode::Unimplemented),
    {
        if self.posix_signals {
            Ok(())
        } else {
            Err(StatusCode::Unimplemented)
        }
    }
}

/// A channel that was registered is found under its pid and type, and a
/// second registration of that type for the pid is refused.
pub proof fn law_registered_channel_is_found<C>(reg: Map<i32, Map<LogChannelType, C>>, pid: i32, t: LogChannelType, channel: C)
    requires
        !channels_of(reg, pid).contains_key(t),
    ensures
        registry_with(reg, pid, t, channel).contains_key(pid),
        registry_with(reg, pid, t, channel)[pid].contains_key(t),
        registry_with(reg, pid, t, channel)[pid][t] == channel,
        channels_of(registry_with(reg, pid, t, channel), pid).contains_key(t),
{
}

/// Unregistering a channel that was just registered leaves the pid with
/// the channels it had before, and every other pid as it was.
pub proof fn law_unregister_undoes_register<C>(reg: Map<i32, Map<LogChannelType, C>>, pid: i32, t: LogChannelType, channel: C, other: i32)
    requires
        !channels_of(reg, pid).contains_key(t),
        other != pid,
    ensures
        channels_of(registry_without(registry_with(reg, pid, t, channel), pid, t), pid) == channels_of(reg, pid),
        registry_without(registry_with(reg, pid, t, channel), pid, t).contains_key(other) == reg.contains_key(other),
        reg.contains_key(other) ==> registry_without(registry_with(reg, pid, t, channel), pid, t)[other] == reg[other],
        reg.contains_key(pid) ==> registry_without(registry_with(reg, pid, t, channel), pid, t) == reg,
{
    assert(channels_of(reg, pid).insert(t, channel).remove(t) =~= channels_of(reg, pid));
    if reg.contains_key(pid) {
        assert(registry_without(registry_with(reg, pid, t, channel), pid, t) =~= reg);
    }
}

} // verus!
