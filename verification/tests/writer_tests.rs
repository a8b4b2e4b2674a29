use loglib::LevelFilter;
use loglib::LogError;
use loglib::LogLevel;
use loglib::RotatingWriter;
use loglib::clock::Timestamp;
use loglib::fileset::LogFileSet;
use loglib::line::format_log_line;
use loglib::set_global_log_level;
use loglib::writer::RotateOp;

fn stamp() -> Timestamp {
    Timestamp { year: 2024, month: 5, day: 3, hour: 10, minute: 2, second: 9, milli: 7 }
}

fn new_writer(max_size: u64, max_files: usize) -> RotatingWriter {
    RotatingWriter::new("logs", "app.log", max_size, max_files, "demo").unwrap()
}

#[test]
fn size_floor_is_enforced() {
    let r = RotatingWriter::new("logs", "app.log", 100, 3, "demo");
    assert!(matches!(r, Err(LogError::ConfigError)));
    let r = RotatingWriter::new("logs", "app.log", 255, 3, "demo");
    assert!(matches!(r, Err(LogError::ConfigError)));
    let r = RotatingWriter::new("logs", "app.log", 256, 3, "demo");
    assert!(r.is_ok());
}

#[test]
fn fresh_writer_has_empty_active_file() {
    let w = new_writer(256, 3);
    assert_eq!(w.files.active, "");
    assert_eq!(w.files.archive_count(), 0);
    assert_eq!(w.dir, "logs");
    assert_eq!(w.basename, "app.log");
}

#[test]
fn writes_append_one_line_each_in_order() {
    let mut w = new_writer(1024, 3);
    let filter = LevelFilter::new();
    let t = stamp();
    w.write(&filter, &t, 42, "main", LogLevel::Trace, "dropped");
    w.write(&filter, &t, 42, "main", LogLevel::Info, "first");
    w.write(&filter, &t, 42, "main", LogLevel::Warning, "second");
    w.write(&filter, &t, 42, "main", LogLevel::Error, "third");
    let expected = format!(
        "{}\n{}\n{}\n",
        format_log_line(&t, LogLevel::Info, 42, "main", "first"),
        format_log_line(&t, LogLevel::Warning, 42, "main", "second"),
        format_log_line(&t, LogLevel::Error, 42, "main", "third"),
    );
    assert_eq!(w.files.active, expected);
    assert_eq!(w.files.archive_count(), 0);
}

#[test]
fn filtered_writes_produce_no_output() {
    let mut w = new_writer(256, 3);
    let mut filter = LevelFilter::new();
    set_global_log_level(&mut filter, LogLevel::Warning);
    let t = stamp();
    w.write(&filter, &t, 7, "main", LogLevel::Trace, "a");
    w.write(&filter, &t, 7, "main", LogLevel::Debug, "b");
    w.write(&filter, &t, 7, "main", LogLevel::Info, "c");
    assert_eq!(w.files.active, "");
    w.write(&filter, &t, 7, "main", LogLevel::Warning, "d");
    w.write(&filter, &t, 7, "main", LogLevel::Error, "e");
    w.write(&filter, &t, 7, "main", LogLevel::Fatal, "f");
    let expected = format!(
        "{}\n{}\n{}\n",
        format_log_line(&t, LogLevel::Warning, 7, "main", "d"),
        format_log_line(&t, LogLevel::Error, 7, "main", "e"),
        format_log_line(&t, LogLevel::Fatal, 7, "main", "f"),
    );
    assert_eq!(w.files.active, expected);
}

#[test]
fn overflow_rotates_and_starts_with_marker() {
    let mut w = new_writer(256, 3);
    let filter = LevelFilter::new();
    let t = stamp();
    while w.files.active_size() < 256 {
        w.write(&filter, &t, 42, "main", LogLevel::Info, "filler line");
    }
    let prior = w.files.active.clone();
    w.write(&filter, &t, 42, "main", LogLevel::Info, "trigger");
    assert_eq!(w.files.archive_count(), 1);
    assert_eq!(w.files.archive(0), &prior);
    let expected = format!(
        "{}\n{}\n",
        format_log_line(&t, LogLevel::Debug, 42, "main", "[ROTATION] Logger restarted — demo"),
        format_log_line(&t, LogLevel::Info, 42, "main", "trigger"),
    );
    assert_eq!(w.files.active, expected);
}

#[test]
fn archives_fill_up_then_oldest_is_evicted() {
    let mut files = LogFileSet::fresh();
    files.append_line("epoch zero");
    files.rotate(2);
    assert_eq!(files.active, "");
    assert_eq!(files.archive_count(), 1);
    files.append_line("epoch one");
    files.rotate(2);
    assert_eq!(files.archive_count(), 2);
    assert_eq!(files.archive(0).as_str(), "epoch one\n");
    assert_eq!(files.archive(1).as_str(), "epoch zero\n");
    files.append_line("epoch two");
    files.rotate(2);
    assert_eq!(files.archive_count(), 2);
    assert_eq!(files.archive(0).as_str(), "epoch two\n");
    assert_eq!(files.archive(1).as_str(), "epoch one\n");
}

#[test]
fn rotation_without_retained_archives_discards_the_content() {
    let mut files = LogFileSet::fresh();
    files.append_line("short lived");
    files.rotate(0);
    assert_eq!(files.active, "");
    assert_eq!(files.archive_count(), 0);
}

#[test]
fn repeated_overflow_evicts_through_the_write_path() {
    let mut w = new_writer(256, 1);
    let filter = LevelFilter::new();
    let t = stamp();
    let mut epochs: Vec<String> = Vec::new();
    for round in 0..3u32 {
        while w.files.active_size() < 256 {
            w.write(&filter, &t, 42, "main", LogLevel::Info, &format!("round {round}"));
        }
        epochs.push(w.files.active.clone());
        w.write(&filter, &t, 42, "main", LogLevel::Info, "trigger");
    }
    // only one archive is retained: the most recently demoted content
    assert_eq!(w.files.archive_count(), 1);
    assert_eq!(w.files.archive(0), &epochs[2]);
    assert!(epochs[0] != epochs[2]);
}

#[test]
fn rotation_ops_follow_the_cascade_order() {
    let w = new_writer(256, 3);
    let ops = w.rotation_ops();
    assert_eq!(
        ops,
        vec![
            RotateOp::Remove { index: 3 },
            RotateOp::Rename { from: 2, to: 3 },
            RotateOp::Rename { from: 1, to: 2 },
            RotateOp::Rename { from: 0, to: 1 },
        ]
    );
}

#[test]
fn rotation_ops_for_small_archive_counts() {
    let w = new_writer(256, 1);
    assert_eq!(
        w.rotation_ops(),
        vec![RotateOp::Remove { index: 1 }, RotateOp::Rename { from: 0, to: 1 }]
    );
    let w = new_writer(256, 0);
    assert_eq!(w.rotation_ops(), vec![RotateOp::Remove { index: 0 }]);
}

#[test]
fn marker_message_embeds_the_application_identity() {
    let w = new_writer(256, 3);
    assert_eq!(w.marker_message(), "[ROTATION] Logger restarted — demo");
}

#[test]
fn needs_rotation_compares_against_max_size() {
    let w = new_writer(256, 3);
    assert!(!w.needs_rotation(0));
    assert!(!w.needs_rotation(255));
    assert!(w.needs_rotation(256));
    assert!(w.needs_rotation(300));
}
