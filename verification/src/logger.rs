//! The logger facade: zero-or-one rotating writer composed with zero-or-one
//! bridge to the host system's log facility, selected at construction time.
//! Delivery to the host facility is described as data (a severity and a
//! text); the shell that owns the native connection performs it.

use vstd::prelude::*;
use crate::clock::Timestamp;
use crate::fileset::write_v;
use crate::level::LevelFilter;
use crate::level::LogLevel;
use crate::level::SystemSeverity;
use crate::level::set_global_log_level;
use crate::level::should_log;
use crate::level::spec_should_log;
use crate::line::spec_rendered;
use crate::writer::LogError;
use crate::writer::MIN_SIZE;
use crate::writer::RotatingWriter;

verus! {

/// One report owed to the host system's log facility: the collapsed
/// severity and the text to deliver.
pub struct BridgeReport {
    pub severity: SystemSeverity,
    pub text: String,
}

/// The facade over a rotating writer and/or a system-log bridge. Whether a
/// bridge connection exists is decided where the connection is made; the
/// facade only records it.
pub struct Logger {
    pub rotating_writer: Option<RotatingWriter>,
    pub has_system_logger: bool,
    pub app_name: String,
}

impl Logger {
    pub open spec fn wf(self) -> bool {
        self.rotating_writer matches Some(w) ==> w.wf()
    }

    /// A logger that only reports to the host facility, when a connection
    /// could be made.
    pub fn system_only(app_name: &str, system_available: bool) -> (r: Result<Logger, LogError>)
        ensures
            r matches Ok(l) && l.wf(),
            r matches Ok(l) ==> {
                &&& l.rotating_writer is None
                &&& l.has_system_logger == system_available
                &&& l.app_name@ == app_name@
            },
    {
        Ok(
            Logger {
                rotating_writer: None,
                has_system_logger: system_available,
                app_name: String::from_str(app_name),
            },
        )
    }

    /// A logger that only writes to a rotating file set. Fails with
    /// `ConfigError` exactly when `max_size_bytes` is under the floor.
    pub fn file_only(
        directory: &str,
        filename: &str,
        max_size_bytes: u64,
        max_files: usize,
    ) -> (r: Result<Logger, LogError>)
        ensures
            r is Err <==> max_size_bytes < MIN_SIZE,
            r is Err ==> r->Err_0 == LogError::ConfigError,
            r matches Ok(l) ==> {
                &&& l.wf()
                &&& l.rotating_writer matches Some(w) && w.dir@ == directory@ && w.basename@
                    == filename@ && w.max_size == max_size_bytes && w.max_files == max_files
                    && w.app_info@ == "UnknownApp"@ && w.files@
                    == crate::fileset::FileSetView::fresh()
                &&& !l.has_system_logger
                &&& l.app_name@ == "unnamed"@
            },
    {
        let writer = match RotatingWriter::new(
            directory,
            filename,
            max_size_bytes,
            max_files,
            "UnknownApp",
        ) {
            Ok(w) => w,
            Err(e) => { return Err(e) },
        };
        Ok(
            Logger {
                rotating_writer: Some(writer),
                has_system_logger: false,
                app_name: String::from_str("unnamed"),
            },
        )
    }

    /// A logger that writes to a rotating file set and reports to the host
    /// facility. The application-identifying string embedded in rotation
    /// markers is the application's name followed by its version.
    pub fn file_and_system(
        app_name: &str,
        version: &str,
        directory: &str,
        filename: &str,
        max_size_bytes: u64,
        max_files: usize,
        system_available: bool,
    ) -> (r: Result<Logger, LogError>)
        ensures
            r is Err <==> max_size_bytes < MIN_SIZE,
            r is Err ==> r->Err_0 == LogError::ConfigError,
            r matches Ok(l) ==> {
                &&& l.wf()
                &&& l.rotating_writer matches Some(w) && w.dir@ == directory@ && w.basename@
                    == filename@ && w.max_size == max_size_bytes && w.max_files == max_files
                    && w.app_info@ == app_name@ + " v"@ + version@ && w.files@
                    == crate::fileset::FileSetView::fresh()
                &&& l.has_system_logger == system_available
                &&& l.app_name@ == app_name@
            },
    {
        let mut app_info = String::from_str(app_name);
        app_info.append(" v");
        app_info.append(version);
        let writer = match RotatingWriter::new(
            directory,
            filename,
            max_size_bytes,
            max_files,
            app_info.as_str(),
        ) {
            Ok(w) => w,
            Err(e) => { return Err(e) },
        };
        Ok(
            Logger {
                rotating_writer: Some(writer),
                has_system_logger: system_available,
                app_name: String::from_str(app_name),
            },
        )
    }

    /// Overwrites the shared severity threshold.
    pub fn set_log_level(&self, filter: &mut LevelFilter, level: LogLevel)
        ensures
            final(filter).threshold == level,
    {
        set_global_log_level(filter, level);
    }

    /// The convenience entry point: writes an already-formatted message at
    /// `Debug` severity, and is a no-op when no writer is configured. By
    /// design it never also forwards to the system bridge.
    pub fn log(
        &mut self,
        filter: &LevelFilter,
        stamp: &Timestamp,
        pid: u32,
        tid: &str,
        message: &str,
    )
        requires
            old(self).wf(),
            stamp.wf(),
        ensures
            final(self).wf(),
            write_to_file_post(*old(self), *final(self), *filter, *stamp, pid as nat, tid@, LogLevel::Debug, message@),
    {
        if self.rotating_writer.is_none() {
            return ;
        }
        self.write_to_file(filter, stamp, pid, tid, LogLevel::Debug, message);
    }

    /// A report for the host facility, owed exactly when a bridge is
    /// configured and the level passes the filter: the level collapsed to
    /// the facility's severity set, with the message unchanged.
    pub fn platform_log(&self, filter: &LevelFilter, level: LogLevel, message: &str) -> (r:
        Option<BridgeReport>)
        ensures
            r is Some <==> self.has_system_logger && spec_should_log(*filter, level),
            r matches Some(rep) ==> rep.severity == level.spec_system_severity() && rep.text@
                == message@,
    {
        if self.has_system_logger && should_log(filter, level) {
            Some(
                BridgeReport {
                    severity: level.to_system_severity(),
                    text: String::from_str(message),
                },
            )
        } else {
            None
        }
    }

    /// Delegates one write to the rotating writer, if one is configured.
    pub fn write_to_file(
        &mut self,
        filter: &LevelFilter,
        stamp: &Timestamp,
        pid: u32,
        tid: &str,
        level: LogLevel,
        message: &str,
    )
        requires
            old(self).wf(),
            stamp.wf(),
        ensures
            final(self).wf(),
            write_to_file_post(*old(self), *final(self), *filter, *stamp, pid as nat, tid@, level, message@),
    {
        match &mut self.rotating_writer {
            Some(w) => {
                w.write(filter, stamp, pid, tid, level, message);
            },
            None => {},
        }
    }
}

/// What one leveled write leaves behind: nothing changes without a writer or
/// below the threshold; otherwise the writer's file set takes one write of
/// the rendered line, with the policy and the rest of the facade untouched.
pub open spec fn write_to_file_post(
    pre: Logger,
    post: Logger,
    filter: LevelFilter,
    stamp: Timestamp,
    pid: nat,
    tid: Seq<char>,
    level: LogLevel,
    message: Seq<char>,
) -> bool {
    &&& post.has_system_logger == pre.has_system_logger
    &&& post.app_name == pre.app_name
    &&& (pre.rotating_writer is None ==> post == pre)
    &&& (pre.rotating_writer matches Some(w) ==> {
        &&& post.rotating_writer matches Some(pw)
        &&& pw.dir == w.dir
        &&& pw.basename == w.basename
        &&& pw.max_size == w.max_size
        &&& pw.max_files == w.max_files
        &&& pw.app_info == w.app_info
        &&& (!spec_should_log(filter, level) ==> pw == w)
        &&& (spec_should_log(filter, level) ==> pw.files@ == write_v(
            w.files@,
            spec_rendered(stamp, level, pid, tid, message),
            spec_rendered(stamp, LogLevel::Debug, pid, tid, w.marker_text()),
            w.max_size as nat,
            w.max_files as nat,
        ))
    })
}

} // verus!
