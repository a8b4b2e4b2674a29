//! The process-wide logger registry: one optional `Logger` instance,
//! explicitly initialized and replaced. The single lock that guards it, and
//! the static cell that makes it process-wide, belong to the embedding
//! program; this crate defines the state and the installation steps.

use vstd::prelude::*;
use crate::fileset::FileSetView;
use crate::logger::Logger;
use crate::writer::LogError;
use crate::writer::MIN_SIZE;

verus! {

/// The registry's state: empty until an `init_*` function installs a logger.
pub struct LoggerRegistry {
    pub logger: Option<Logger>,
}

impl LoggerRegistry {
    pub open spec fn wf(self) -> bool {
        self.logger matches Some(l) ==> l.wf()
    }

    /// The state at process start: no logger installed.
    pub fn empty() -> (r: LoggerRegistry)
        ensures
            r.logger is None,
            r.wf(),
    {
        LoggerRegistry { logger: None }
    }
}

/// Installs a file-only logger, replacing any prior instance. Fails with
/// `ConfigError` exactly when `max_size_bytes` is under the floor, and then
/// leaves the registry as it was.
pub fn init_global_logger_file_only(
    reg: &mut LoggerRegistry,
    directory: &str,
    filename: &str,
    max_size_bytes: u64,
    max_files: usize,
) -> (r: Result<(), LogError>)
    requires
        old(reg).wf(),
    ensures
        final(reg).wf(),
        r is Err <==> max_size_bytes < MIN_SIZE,
        r is Err ==> r->Err_0 == LogError::ConfigError && *final(reg) == *old(reg),
        r is Ok ==> {
            &&& final(reg).logger matches Some(l)
            &&& l.rotating_writer matches Some(w) && w.dir@ == directory@ && w.basename@
                == filename@ && w.max_size == max_size_bytes && w.max_files == max_files
                && w.files@ == FileSetView::fresh()
            &&& !l.has_system_logger
        },
{
    let logger = match Logger::file_only(directory, filename, max_size_bytes, max_files) {
        Ok(l) => l,
        Err(e) => { return Err(e) },
    };
    reg.logger = Some(logger);
    Ok(())
}

/// Installs a system-only logger, replacing any prior instance.
/// `system_available` records whether the embedding program could connect to
/// the host facility.
pub fn init_global_logger_system_only(
    reg: &mut LoggerRegistry,
    app_name: &str,
    system_available: bool,
) -> (r: Result<(), LogError>)
    requires
        old(reg).wf(),
    ensures
        final(reg).wf(),
        r is Ok,
        final(reg).logger matches Some(l) && l.rotating_writer is None && l.has_system_logger
            == system_available && l.app_name@ == app_name@,
{
    let logger = match Logger::system_only(app_name, system_available) {
        Ok(l) => l,
        Err(e) => { return Err(e) },
    };
    reg.logger = Some(logger);
    Ok(())
}

/// Installs a logger with both sinks, replacing any prior instance. Fails
/// with `ConfigError` exactly when `max_size_bytes` is under the floor, and
/// then leaves the registry as it was.
pub fn init_global_logger_file_and_system(
    reg: &mut LoggerRegistry,
    app_name: &str,
    version: &str,
    directory: &str,
    filename: &str,
    max_size_bytes: u64,
    max_files: usize,
    system_available: bool,
) -> (r: Result<(), LogError>)
    requires
        old(reg).wf(),
    ensures
        final(reg).wf(),
        r is Err <==> max_size_bytes < MIN_SIZE,
        r is Err ==> r->Err_0 == LogError::ConfigError && *final(reg) == *old(reg),
        r is Ok ==> {
            &&& final(reg).logger matches Some(l)
            &&& l.rotating_writer matches Some(w) && w.dir@ == directory@ && w.basename@
                == filename@ && w.max_size == max_size_bytes && w.max_files == max_files
                && w.app_info@ == app_name@ + " v"@ + version@ && w.files@ == FileSetView::fresh()
            &&& l.has_system_logger == system_available
            &&& l.app_name@ == app_name@
        },
{
    let logger = match Logger::file_and_system(
        app_name,
        version,
        directory,
        filename,
        max_size_bytes,
        max_files,
        system_available,
    ) {
        Ok(l) => l,
        Err(e) => { return Err(e) },
    };
    reg.logger = Some(logger);
    Ok(())
}

} // verus!
