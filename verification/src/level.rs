//! Log severities, the process-wide filter threshold, and the mapping onto
//! the coarser severity set of the host system's log facility.

use vstd::prelude::*;

verus! {

/// The six log severities, ordered from least to most severe.
#[derive(Debug, Clone, Copy, PartialEq, Eq, Structural)]
pub enum LogLevel {
    Trace,
    Debug,
    Info,
    Warning,
    Error,
    Fatal,
}

/// The three severities the host system's log facility distinguishes.
#[derive(Debug, Clone, Copy, PartialEq, Eq, Structural)]
pub enum SystemSeverity {
    Informational,
    Warning,
    Error,
}

impl LogLevel {
    /// The numeric rank used for threshold comparisons: `Trace` is lowest.
    pub open spec fn spec_rank(self) -> nat {
        match self {
            LogLevel::Trace => 0,
            LogLevel::Debug => 1,
            LogLevel::Info => 2,
            LogLevel::Warning => 3,
            LogLevel::Error => 4,
            LogLevel::Fatal => 5,
        }
    }

    pub fn rank(&self) -> (r: u8)
        ensures
            r as nat == self.spec_rank(),
    {
        match self {
            LogLevel::Trace => 0,
            LogLevel::Debug => 1,
            LogLevel::Info => 2,
            LogLevel::Warning => 3,
            LogLevel::Error => 4,
            LogLevel::Fatal => 5,
        }
    }

    /// The level's name as it appears in a formatted log line.
    pub open spec fn spec_as_str(self) -> Seq<char> {
        match self {
            LogLevel::Trace => "TRACE"@,
            LogLevel::Debug => "DEBUG"@,
            LogLevel::Info => "INFO"@,
            LogLevel::Warning => "WARNING"@,
            LogLevel::Error => "ERROR"@,
            LogLevel::Fatal => "FATAL"@,
        }
    }

    pub fn as_str(&self) -> (r: &'static str)
        ensures
            r@ == self.spec_as_str(),
    {
        match self {
            LogLevel::Trace => "TRACE",
            LogLevel::Debug => "DEBUG",
            LogLevel::Info => "INFO",
            LogLevel::Warning => "WARNING",
            LogLevel::Error => "ERROR",
            LogLevel::Fatal => "FATAL",
        }
    }

    /// The mapping onto the host facility's severities: everything up to
    /// `Info` is informational, `Warning` is a warning, and `Error` and
    /// `Fatal` are errors.
    pub open spec fn spec_system_severity(self) -> SystemSeverity {
        match self {
            LogLevel::Trace | LogLevel::Debug | LogLevel::Info => SystemSeverity::Informational,
            LogLevel::Warning => SystemSeverity::Warning,
            LogLevel::Error | LogLevel::Fatal => SystemSeverity::Error,
        }
    }

    pub fn to_system_severity(&self) -> (r: SystemSeverity)
        ensures
            r == self.spec_system_severity(),
    {
        match self {
            LogLevel::Trace | LogLevel::Debug | LogLevel::Info => SystemSeverity::Informational,
            LogLevel::Warning => SystemSeverity::Warning,
            LogLevel::Error | LogLevel::Fatal => SystemSeverity::Error,
        }
    }

    /// The corresponding severity of the event-log writer.
    pub open spec fn spec_winlog_level(self) -> crate::winlog::LogLevel {
        match self {
            LogLevel::Trace => crate::winlog::LogLevel::Trace,
            LogLevel::Debug | LogLevel::Info => crate::winlog::LogLevel::Debug,
            LogLevel::Warning => crate::winlog::LogLevel::Warning,
            LogLevel::Error | LogLevel::Fatal => crate::winlog::LogLevel::Error,
        }
    }

    pub fn to_winlog_level(&self) -> (r: crate::winlog::LogLevel)
        ensures
            r == self.spec_winlog_level(),
    {
        match self {
            LogLevel::Trace => crate::winlog::LogLevel::Trace,
            LogLevel::Debug | LogLevel::Info => crate::winlog::LogLevel::Debug,
            LogLevel::Warning => crate::winlog::LogLevel::Warning,
            LogLevel::Error | LogLevel::Fatal => crate::winlog::LogLevel::Error,
        }
    }
}

/// The process-wide severity threshold. A log call is accepted exactly when
/// its level's rank is at least the threshold's rank. The caller that wants
/// one filter shared by every thread keeps a single instance behind its own
/// lock; this crate only defines the state and its transitions.
pub struct LevelFilter {
    pub threshold: LogLevel,
}

impl LevelFilter {
    /// A fresh filter; the default threshold is `Debug`.
    pub fn new() -> (r: LevelFilter)
        ensures
            r.threshold == LogLevel::Debug,
    {
        LevelFilter { threshold: LogLevel::Debug }
    }
}

/// Whether a call at `level` passes the filter.
pub open spec fn spec_should_log(filter: LevelFilter, level: LogLevel) -> bool {
    level.spec_rank() >= filter.threshold.spec_rank()
}

pub fn should_log(filter: &LevelFilter, level: LogLevel) -> (r: bool)
    ensures
        r == spec_should_log(*filter, level),
{
    level.rank() >= filter.threshold.rank()
}

/// Overwrites the threshold; takes effect on the next call that consults the
/// filter.
pub fn set_global_log_level(filter: &mut LevelFilter, level: LogLevel)
    ensures
        final(filter).threshold == level,
{
    filter.threshold = level;
}

} // verus!
