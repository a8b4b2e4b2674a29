//! A process-local logging library: a size-bounded rotating file writer,
//! a process-wide severity filter, and a bridge description for the host
//! system's native log facility.
//!
//! The rotating writer keeps an in-memory image of its file set (the active
//! file plus the numbered archives) and every state change is specified
//! against that image. The thin I/O shell that mirrors the image onto a real
//! directory lives outside this crate.

pub mod clock;
pub mod fileset;
pub mod laws;
pub mod logger;
pub mod level;
pub mod line;
pub mod registry;
pub mod winlog;
pub mod writer;

pub use level::LevelFilter;
pub use level::LogLevel;
pub use level::SystemSeverity;
pub use level::set_global_log_level;
pub use level::should_log;
pub use logger::Logger;
pub use registry::LoggerRegistry;
pub use registry::init_global_logger_file_and_system;
pub use registry::init_global_logger_file_only;
pub use registry::init_global_logger_system_only;
pub use writer::LogError;
pub use writer::RotatingWriter;
