//! How the daemon logs: the level, where the log goes in each context, and
//! the log items it hands to the observe service.
use vstd::prelude::*;
use crate::executables::ExecutablePhase;
use crate::text::concat;

verus! {

/// The levels of a log record, most severe first.
#[derive(Debug, Clone, Copy, PartialEq, Eq, Structural)]
pub enum LogLevel {
    Error,
    Warn,
    Info,
    Debug,
    Trace,
}

/// The name a level is written with.
pub open spec fn level_name(level: LogLevel) -> Seq<char> {
    match level {
        LogLevel::Error => "ERROR"@,
        LogLevel::Warn => "WARN"@,
        LogLevel::Info => "INFO"@,
        LogLevel::Debug => "DEBUG"@,
        LogLevel::Trace => "TRACE"@,
    }
}

impl LogLevel {
    /// The name the level is written with.
    pub fn name(&self) -> (r: String)
        ensures
            r@ == level_name(*self),
    {
        match self {
            LogLevel::Error => String::from_str("ERROR"),
            LogLevel::Warn => String::from_str("WARN"),
            LogLevel::Info => String::from_str("INFO"),
            LogLevel::Debug => String::from_str("DEBUG"),
            LogLevel::Trace => String::from_str("TRACE"),
        }
    }
}

/// The daemon is verbose or it is not: verbose logs everything, otherwise
/// from `Info` up.
pub fn tracing_level(verbose: bool) -> (r: LogLevel)
    ensures
        r == (if verbose { LogLevel::Trace } else { LogLevel::Info }),
{
    if verbose {
        LogLevel::Trace
    } else {
        LogLevel::Info
    }
}

/// The filter that lets the daemon's own records through from `level` up:
/// `auraed=<LEVEL>`.
pub fn env_filter(level: LogLevel) -> (r: String)
    ensures
        r@ == "auraed="@ + level_name(level),
{
    let name = level.name();
    concat("auraed=", name.as_str())
}

/// Where the log goes.
#[derive(Debug, Clone, Copy, PartialEq, Eq, Structural)]
pub enum LoggingMode {
    /// To standard output only.
    Container,
    /// To standard output, as the first process of the machine.
    Pid1,
    /// To syslog and standard output.
    Daemon,
}

/// A container logs to standard output; otherwise process id 1 logs as the
/// first process and any other as a daemon.
pub fn logging_mode(container: bool, pid: u32) -> (r: LoggingMode)
    ensures
        r == (if container { LoggingMode::Container } else if pid == 1 { LoggingMode::Pid1 } else { LoggingMode::Daemon }),
{
    if container {
        LoggingMode::Container
    } else if pid == 1 {
        LoggingMode::Pid1
    } else {
        LoggingMode::Daemon
    }
}

/// One line for the observe service.
#[derive(Debug, Clone)]
pub struct LogItem {
    pub channel: String,
    pub line: String,
    pub timestamp: i64,
}

/// The line a record of the daemon's own log becomes:
/// `<LEVEL>:<target> -- <message>`.
pub open spec fn record_line(level: LogLevel, target: Seq<char>, message: Seq<char>) -> Seq<char> {
    level_name(level) + ":"@ + target + " -- "@ + message
}

/// A record of the daemon's own log, on the `rust-logs` channel, with no
/// timestamp.
pub fn record_item(level: LogLevel, target: &str, message: &str) -> (r: LogItem)
    ensures
        r.channel@ == "rust-logs"@,
        r.line@ == record_line(level, target@, message@),
        r.timestamp == 0,
{
    let name = level.name();
    let a = concat(name.as_str(), ":");
    let b = concat(a.as_str(), target);
    let c = concat(b.as_str(), " -- ");
    let line = concat(c.as_str(), message);
    proof {
        assert(line@ == record_line(level, target@, message@));
    }
    LogItem { channel: String::from_str("rust-logs"), line, timestamp: 0 }
}

/// The names of the two channels an executable's output goes to:
/// `<name>::stdout` and `<name>::stderr`.
pub fn output_channel_names(name: &str) -> (r: (String, String))
    ensures
        r.0@ == name@ + "::stdout"@,
        r.1@ == name@ + "::stderr"@,
{
    (concat(name, "::stdout"), concat(name, "::stderr"))
}

/// What the thread that forwards an executable's output does next.
#[derive(Debug, Clone, Copy, PartialEq, Eq, Structural)]
pub enum ForwardStep {
    /// Not started yet: look again.
    Wait,
    /// Running: forward the lines read from its output.
    Forward,
    /// Stopped: the thread ends.
    Finish,
}

/// The next step of the forwarding thread, from the executable's phase.
pub fn forward_step(phase: ExecutablePhase) -> (r: ForwardStep)
    ensures
        phase == ExecutablePhase::Init ==> r == ForwardStep::Wait,
        phase == ExecutablePhase::Started ==> r == ForwardStep::Forward,
        phase == ExecutablePhase::Stopped ==> r == ForwardStep::Finish,
{
    match phase {
        ExecutablePhase::Init => ForwardStep::Wait,
        ExecutablePhase::Started => ForwardStep::Forward,
        ExecutablePhase::Stopped => ForwardStep::Finish,
    }
}

} // verus!
