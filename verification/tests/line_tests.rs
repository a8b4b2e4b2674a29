use loglib::clock::Timestamp;
use loglib::clock::now_local;
use loglib::level::LogLevel;
use loglib::line::format_log_line;
use loglib::line::format_stamp;
use loglib::line::u64_to_string;

fn stamp() -> Timestamp {
    Timestamp { year: 2024, month: 5, day: 3, hour: 10, minute: 2, second: 9, milli: 7 }
}

#[test]
fn decimal_rendering() {
    assert_eq!(u64_to_string(0), "0");
    assert_eq!(u64_to_string(9), "9");
    assert_eq!(u64_to_string(10), "10");
    assert_eq!(u64_to_string(12345), "12345");
    assert_eq!(u64_to_string(u64::MAX), "18446744073709551615");
}

#[test]
fn stamp_is_zero_padded() {
    assert_eq!(format_stamp(&stamp()), "[2024-05-03 10:02:09.007]");
}

#[test]
fn stamp_with_wide_fields() {
    let t = Timestamp { year: 99, month: 12, day: 31, hour: 23, minute: 59, second: 59, milli: 999 };
    assert_eq!(format_stamp(&t), "[0099-12-31 23:59:59.999]");
}

#[test]
fn stamp_during_leap_second() {
    let t = Timestamp { year: 2016, month: 12, day: 31, hour: 23, minute: 59, second: 59, milli: 1500 };
    assert_eq!(format_stamp(&t), "[2016-12-31 23:59:59.1500]");
}

#[test]
fn line_format_is_exact() {
    let line = format_log_line(&stamp(), LogLevel::Info, 42, "ThreadId(1)", "hello");
    assert_eq!(line, "[2024-05-03 10:02:09.007] INFO PID:42 TID:ThreadId(1) hello");
}

#[test]
fn line_keeps_message_verbatim() {
    let line = format_log_line(&stamp(), LogLevel::Fatal, 1, "main", "a  spaced   message");
    assert_eq!(line, "[2024-05-03 10:02:09.007] FATAL PID:1 TID:main a  spaced   message");
}

#[test]
fn stamped_line_renders_the_reading_it_returns() {
    let (t, line) = loglib::line::stamped_line(LogLevel::Warning, 5, "main", "careful");
    assert_eq!(line, format_log_line(&t, LogLevel::Warning, 5, "main", "careful"));
    assert!(line.starts_with('['));
    assert!(line.ends_with(" WARNING PID:5 TID:main careful"));
}

#[test]
fn clock_reading_is_well_formed() {
    let t = now_local();
    assert!((1..=12).contains(&t.month));
    assert!((1..=31).contains(&t.day));
    assert!(t.hour <= 23);
    assert!(t.minute <= 59);
    assert!(t.second <= 59);
    assert!(t.milli <= 1999);
}
