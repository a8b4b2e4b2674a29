//! Reporting to the Windows event log, described as data. A report is tried
//! first against the preferred, possibly unregistered, event source; if that
//! fails, against the standard fallback source with the preferred name
//! prefixed to the message. The shell owning the native event-log handles
//! performs the two attempts in that order and stops after a success.

use vstd::prelude::*;

verus! {

/// The severities of the event-log writer.
#[derive(Debug, Clone, Copy)]
pub enum LogLevel {
    Trace,
    Debug,
    Info,
    Warning,
    Error,
    Fatal,
}

impl LogLevel {
    /// The numeric event type the Windows event log distinguishes: 4 for an
    /// informational event, 2 for a warning, 1 for an error.
    pub open spec fn spec_event_type(self) -> u16 {
        match self {
            LogLevel::Trace | LogLevel::Debug | LogLevel::Info => 4,
            LogLevel::Warning => 2,
            LogLevel::Error | LogLevel::Fatal => 1,
        }
    }

    pub fn to_event_type(&self) -> (r: u16)
        ensures
            r == self.spec_event_type(),
    {
        match self {
            LogLevel::Trace | LogLevel::Debug | LogLevel::Info => 4,
            LogLevel::Warning => 2,
            LogLevel::Error | LogLevel::Fatal => 1,
        }
    }
}

/// One attempt against the event log: which source to register, the event
/// type, and the message to report.
pub struct ReportAttempt {
    pub source: String,
    pub event_type: u16,
    pub message: String,
}

/// An event-log writer: the preferred event source and the standard source
/// it falls back to.
pub struct WinEventLogger {
    pub preferred_source: String,
    pub fallback_source: &'static str,
}

impl WinEventLogger {
    /// A writer preferring `preferred_source`, falling back to the standard
    /// `Application` source.
    pub fn new(preferred_source: &str) -> (r: WinEventLogger)
        ensures
            r.preferred_source@ == preferred_source@,
            r.fallback_source@ == "Application"@,
    {
        WinEventLogger {
            preferred_source: String::from_str(preferred_source),
            fallback_source: "Application",
        }
    }

    /// The message reported through the fallback source: the preferred
    /// source's name in brackets, then the original message.
    pub open spec fn spec_prefixed(self, message: Seq<char>) -> Seq<char> {
        "["@ + self.preferred_source@ + "] "@ + message
    }

    /// The two attempts a report makes, in order: the message as given
    /// against the preferred source, then — only if that fails — the
    /// prefixed message against the fallback source, both at the level's
    /// event type.
    pub fn report(&self, level: LogLevel, message: &str) -> (r: (ReportAttempt, ReportAttempt))
        ensures
            r.0.source@ == self.preferred_source@,
            r.0.event_type == level.spec_event_type(),
            r.0.message@ == message@,
            r.1.source@ == self.fallback_source@,
            r.1.event_type == level.spec_event_type(),
            r.1.message@ == self.spec_prefixed(message@),
    {
        let first = ReportAttempt {
            source: self.preferred_source.clone(),
            event_type: level.to_event_type(),
            message: String::from_str(message),
        };
        let mut prefixed = String::from_str("[");
        prefixed.append(self.preferred_source.as_str());
        prefixed.append("] ");
        prefixed.append(message);
        let second = ReportAttempt {
            source: String::from_str(self.fallback_source),
            event_type: level.to_event_type(),
            message: prefixed,
        };
        (first, second)
    }
}

} // verus!
