use loglib::winlog::LogLevel;
use loglib::winlog::WinEventLogger;

#[test]
fn event_types_match_the_event_log() {
    assert_eq!(LogLevel::Trace.to_event_type(), 4);
    assert_eq!(LogLevel::Debug.to_event_type(), 4);
    assert_eq!(LogLevel::Info.to_event_type(), 4);
    assert_eq!(LogLevel::Warning.to_event_type(), 2);
    assert_eq!(LogLevel::Error.to_event_type(), 1);
    assert_eq!(LogLevel::Fatal.to_event_type(), 1);
}

#[test]
fn new_prefers_the_given_source() {
    let l = WinEventLogger::new("MyService");
    assert_eq!(l.preferred_source, "MyService");
    assert_eq!(l.fallback_source, "Application");
}

#[test]
fn report_tries_preferred_then_prefixed_fallback() {
    let l = WinEventLogger::new("MyService");
    let (first, second) = l.report(LogLevel::Error, "disk on fire");
    assert_eq!(first.source, "MyService");
    assert_eq!(first.event_type, 1);
    assert_eq!(first.message, "disk on fire");
    assert_eq!(second.source, "Application");
    assert_eq!(second.event_type, 1);
    assert_eq!(second.message, "[MyService] disk on fire");
}

#[test]
fn report_keeps_the_level_for_both_attempts() {
    let l = WinEventLogger::new("Svc");
    let (first, second) = l.report(LogLevel::Info, "up");
    assert_eq!(first.event_type, 4);
    assert_eq!(second.event_type, 4);
}
