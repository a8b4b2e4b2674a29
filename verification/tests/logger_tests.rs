use loglib::LevelFilter;
use loglib::LogError;
use loglib::LogLevel;
use loglib::Logger;
use loglib::LoggerRegistry;
use loglib::SystemSeverity;
use loglib::clock::Timestamp;
use loglib::init_global_logger_file_and_system;
use loglib::init_global_logger_file_only;
use loglib::init_global_logger_system_only;
use loglib::line::format_log_line;
use loglib::set_global_log_level;

fn stamp() -> Timestamp {
    Timestamp { year: 2024, month: 5, day: 3, hour: 10, minute: 2, second: 9, milli: 7 }
}

#[test]
fn file_only_composes_a_writer_without_a_bridge() {
    let l = Logger::file_only("logs", "app.log", 512, 4).unwrap();
    assert!(!l.has_system_logger);
    assert_eq!(l.app_name, "unnamed");
    let w = l.rotating_writer.as_ref().unwrap();
    assert_eq!(w.dir, "logs");
    assert_eq!(w.basename, "app.log");
    assert_eq!(w.max_size, 512);
    assert_eq!(w.max_files, 4);
    assert_eq!(w.app_info, "UnknownApp");
    assert_eq!(w.files.active, "");
}

#[test]
fn file_only_rejects_a_small_max_size() {
    let r = Logger::file_only("logs", "app.log", 100, 4);
    assert!(matches!(r, Err(LogError::ConfigError)));
}

#[test]
fn file_and_system_embeds_name_and_version() {
    let l = Logger::file_and_system("tool", "1.2", "logs", "app.log", 512, 4, true).unwrap();
    assert!(l.has_system_logger);
    assert_eq!(l.app_name, "tool");
    let w = l.rotating_writer.as_ref().unwrap();
    assert_eq!(w.app_info, "tool v1.2");
}

#[test]
fn system_only_has_no_writer() {
    let l = Logger::system_only("tool", true).unwrap();
    assert!(l.rotating_writer.is_none());
    assert!(l.has_system_logger);
    assert_eq!(l.app_name, "tool");
}

#[test]
fn platform_log_collapses_severity_and_gates() {
    let l = Logger::system_only("tool", true).unwrap();
    let mut filter = LevelFilter::new();
    let rep = l.platform_log(&filter, LogLevel::Fatal, "boom").unwrap();
    assert_eq!(rep.severity, SystemSeverity::Error);
    assert_eq!(rep.text, "boom");
    let rep = l.platform_log(&filter, LogLevel::Warning, "careful").unwrap();
    assert_eq!(rep.severity, SystemSeverity::Warning);
    set_global_log_level(&mut filter, LogLevel::Warning);
    assert!(l.platform_log(&filter, LogLevel::Info, "quiet").is_none());
}

#[test]
fn platform_log_without_a_bridge_reports_nothing() {
    let l = Logger::file_only("logs", "app.log", 512, 4).unwrap();
    let filter = LevelFilter::new();
    assert!(l.platform_log(&filter, LogLevel::Fatal, "boom").is_none());
}

#[test]
fn log_writes_at_debug_severity_through_the_writer() {
    let mut l = Logger::file_only("logs", "app.log", 512, 4).unwrap();
    let filter = LevelFilter::new();
    let t = stamp();
    l.log(&filter, &t, 9, "main", "preformatted");
    let expected = format!("{}\n", format_log_line(&t, LogLevel::Debug, 9, "main", "preformatted"));
    assert_eq!(l.rotating_writer.as_ref().unwrap().files.active, expected);
}

#[test]
fn log_without_a_writer_is_a_no_op() {
    let mut l = Logger::system_only("tool", true).unwrap();
    let filter = LevelFilter::new();
    let t = stamp();
    l.log(&filter, &t, 9, "main", "preformatted");
    assert!(l.rotating_writer.is_none());
}

#[test]
fn write_to_file_respects_the_filter() {
    let mut l = Logger::file_only("logs", "app.log", 512, 4).unwrap();
    let mut filter = LevelFilter::new();
    set_global_log_level(&mut filter, LogLevel::Error);
    let t = stamp();
    l.write_to_file(&filter, &t, 9, "main", LogLevel::Info, "dropped");
    assert_eq!(l.rotating_writer.as_ref().unwrap().files.active, "");
}

#[test]
fn registry_starts_empty_and_installs_loggers() {
    let mut reg = LoggerRegistry::empty();
    assert!(reg.logger.is_none());
    init_global_logger_file_only(&mut reg, "logs", "app.log", 512, 4).unwrap();
    let l = reg.logger.as_ref().unwrap();
    assert!(!l.has_system_logger);
    assert!(l.rotating_writer.is_some());
    init_global_logger_system_only(&mut reg, "tool", false).unwrap();
    let l = reg.logger.as_ref().unwrap();
    assert!(l.rotating_writer.is_none());
    assert!(!l.has_system_logger);
    init_global_logger_file_and_system(&mut reg, "tool", "0.1.0", "logs", "app.log", 512, 4, true)
        .unwrap();
    let l = reg.logger.as_ref().unwrap();
    assert!(l.rotating_writer.is_some());
    assert!(l.has_system_logger);
    assert_eq!(l.rotating_writer.as_ref().unwrap().app_info, "tool v0.1.0");
}

#[test]
fn failed_init_leaves_the_registry_unchanged() {
    let mut reg = LoggerRegistry::empty();
    let r = init_global_logger_file_only(&mut reg, "logs", "app.log", 100, 4);
    assert!(matches!(r, Err(LogError::ConfigError)));
    assert!(reg.logger.is_none());
    let r = init_global_logger_file_and_system(&mut reg, "tool", "0.1.0", "logs", "app.log", 1, 4, true);
    assert!(matches!(r, Err(LogError::ConfigError)));
    assert!(reg.logger.is_none());
}
