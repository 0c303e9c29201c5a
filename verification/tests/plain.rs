// Every test in this file switches the painting of `colored` off, so that
// the lines can be compared as plain text.

use logline::line::{assemble, paint_pieces, target_qualifier, thread_label, Pieces};
use logline::style::{apply, Color, Paint};
use logline::{Level, LineFormatter, LogRecord, LoggerBuilder, LoggerPreset, Moment};

fn formatter(preset: LoggerPreset, path_depth: usize) -> LineFormatter {
    let mut config = LoggerBuilder::default();
    config.preset = preset;
    config.path_depth = path_depth;
    LineFormatter::new(&config, "proj")
}

fn record(target: &str) -> LogRecord {
    LogRecord {
        level: Level::Info,
        target: target.to_string(),
        file: Some("/home/u/proj/src/mod/file.rs".to_string()),
        line: Some(42),
        message: "hello".to_string(),
    }
}

fn pieces(thread: &str, target: &str, path: &str, line: &str) -> Pieces {
    Pieces {
        timestamp: "2024-05-06 07:08:09".to_string(),
        level: "INFO ".to_string(),
        thread: thread.to_string(),
        target: target.to_string(),
        path: path.to_string(),
        line: line.to_string(),
    }
}

#[test]
fn full_line_for_a_record_of_the_project() {
    colored::control::set_override(false);
    let formatter = formatter(LoggerPreset::FULL, 2);
    let record = record("proj::mod");
    let plain = formatter.pieces(&record, Some("main"), "2024-05-06 07:08:09");
    assert_eq!(plain.path, "mod/file.rs");
    assert_eq!(plain.line, "42");
    assert_eq!(plain.level, "INFO ");
    assert_eq!(plain.thread, "main");
    assert_eq!(plain.target, "proj::mod");
    assert_eq!(plain.timestamp, "2024-05-06 07:08:09");
    assert_eq!(target_qualifier(true, &plain), "mod/file.rs");
    assert_eq!(
        formatter.format_at(&record, Some("main"), "2024-05-06 07:08:09"),
        "2024-05-06 07:08:09 INFO  [main] [mod/file.rs:42] hello"
    );
}

#[test]
fn full_line_for_a_record_of_another_crate() {
    colored::control::set_override(false);
    let formatter = formatter(LoggerPreset::FULL, 2);
    let record = record("other_crate::x");
    let plain = formatter.pieces(&record, Some("main"), "2024-05-06 07:08:09");
    assert_eq!(target_qualifier(false, &plain), "[other_crate::x] mod/file.rs");
    assert_eq!(
        formatter.format_at(&record, Some("main"), "2024-05-06 07:08:09"),
        "2024-05-06 07:08:09 INFO  [main] [[other_crate::x] mod/file.rs:42] hello"
    );
}

#[test]
fn thread_line() {
    colored::control::set_override(false);
    let formatter = formatter(LoggerPreset::THREAD, 0);
    assert_eq!(
        formatter.format_at(&record("proj::mod"), Some("worker-3"), "07:08:09"),
        "07:08:09 INFO  [worker-3] hello"
    );
}

#[test]
fn simple_line() {
    colored::control::set_override(false);
    let formatter = formatter(LoggerPreset::SIMPLE, 0);
    assert_eq!(
        formatter.format_at(&record("proj::mod"), Some("worker-3"), "07:08:09"),
        "[ 07:08:09 INFO ] hello"
    );
}

#[test]
fn simple_line_is_the_same_for_every_thread_and_target() {
    colored::control::set_override(false);
    let formatter = formatter(LoggerPreset::SIMPLE, 1);
    let first = formatter.format_at(&record("proj::mod"), Some("main"), "07:08:09");
    let second = formatter.format_at(&record("other_crate::x"), None, "07:08:09");
    let mut elsewhere = record("third");
    elsewhere.file = None;
    elsewhere.line = None;
    let third = formatter.format_at(&elsewhere, Some("worker"), "07:08:09");
    assert_eq!(first, "[ 07:08:09 INFO ] hello");
    assert_eq!(first, second);
    assert_eq!(first, third);
    let full = LineFormatter { preset: LoggerPreset::FULL, ..formatter };
    let with_place = full.format_at(&record("other_crate::x"), Some("worker"), "07:08:09");
    assert!(with_place.contains("[worker]"));
    assert!(with_place.contains("[other_crate::x] file.rs"));
    assert!(!first.contains("[worker]"));
    assert!(!first.contains("file.rs"));
    assert!(!first.contains("other_crate"));
}

#[test]
fn nothing_is_added_after_the_message() {
    colored::control::set_override(false);
    let formatter = formatter(LoggerPreset::THREAD, 0);
    let mut with_newline = record("proj");
    with_newline.message = "done\n".to_string();
    assert_eq!(
        formatter.format_at(&with_newline, Some("main"), "t"),
        "t INFO  [main] done\n"
    );
    let mut empty = record("proj");
    empty.message = String::new();
    assert_eq!(formatter.format_at(&empty, Some("main"), "t"), "t INFO  [main] ");
}

#[test]
fn missing_file_line_and_thread_name() {
    colored::control::set_override(false);
    let formatter = formatter(LoggerPreset::FULL, 2);
    let record = LogRecord {
        level: Level::Error,
        target: "proj".to_string(),
        file: None,
        line: None,
        message: "lost".to_string(),
    };
    let plain = formatter.pieces(&record, None, "now");
    assert_eq!(plain.path, "unknown");
    assert_eq!(plain.line, "0");
    assert_eq!(plain.thread, "unknown");
    assert_eq!(
        formatter.format_at(&record, None, "now"),
        "now ERROR [unknown] [unknown:0] lost"
    );
}

#[test]
fn thread_labels() {
    assert_eq!(thread_label(Some("main")), "main");
    assert_eq!(thread_label(Some("tokio-runtime-worker")), "tokio-runtime-worker");
    assert_eq!(thread_label(Some("")), "");
    assert_eq!(thread_label(None), "unknown");
}

#[test]
fn every_level_has_its_label_in_the_line() {
    colored::control::set_override(false);
    let formatter = formatter(LoggerPreset::SIMPLE, 0);
    let expected = [
        (Level::Error, "[ t ERROR] m"),
        (Level::Warn, "[ t WARN ] m"),
        (Level::Info, "[ t INFO ] m"),
        (Level::Debug, "[ t DEBUG] m"),
        (Level::Trace, "[ t TRACE] m"),
    ];
    for (level, line) in expected {
        let record = LogRecord {
            level,
            target: "proj".to_string(),
            file: None,
            line: None,
            message: "m".to_string(),
        };
        assert_eq!(formatter.format_at(&record, None, "t"), line);
    }
}

#[test]
fn layouts_from_given_pieces() {
    let given = pieces("main", "dep::io", "io.rs", "7");
    assert_eq!(
        assemble(LoggerPreset::FULL, &given, true, "msg"),
        "2024-05-06 07:08:09 INFO  [main] [io.rs:7] msg"
    );
    assert_eq!(
        assemble(LoggerPreset::FULL, &given, false, "msg"),
        "2024-05-06 07:08:09 INFO  [main] [[dep::io] io.rs:7] msg"
    );
    assert_eq!(
        assemble(LoggerPreset::THREAD, &given, false, "msg"),
        "2024-05-06 07:08:09 INFO  [main] msg"
    );
    assert_eq!(
        assemble(LoggerPreset::SIMPLE, &given, false, "msg"),
        "[ 2024-05-06 07:08:09 INFO ] msg"
    );
}

#[test]
fn unpainted_pieces_come_back_unchanged() {
    colored::control::set_override(false);
    let given = pieces("main", "dep::io", "io.rs", "7");
    let shown = paint_pieces(&given, Level::Info);
    assert_eq!(shown.timestamp, given.timestamp);
    assert_eq!(shown.level, given.level);
    assert_eq!(shown.thread, given.thread);
    assert_eq!(shown.target, given.target);
    assert_eq!(shown.path, given.path);
    assert_eq!(shown.line, given.line);
    assert_eq!(apply("text", Paint { color: Color::Red, bold: true }), "text");
}

#[test]
fn line_at_the_present_time() {
    colored::control::set_override(false);
    let formatter = formatter(LoggerPreset::SIMPLE, 0);
    let line = formatter.format(&record("proj"), Some("main")).expect("a line");
    // "[ " + "YYYY-MM-DD HH:MM:SS" + " INFO ] hello"
    assert_eq!(line.chars().count(), 2 + 19 + 13);
    assert!(line.starts_with("[ "));
    assert!(line.ends_with(" INFO ] hello"));
    let stamp: Vec<char> = line.chars().skip(2).take(19).collect();
    for (at, c) in stamp.iter().enumerate() {
        match at {
            4 | 7 => assert_eq!(*c, '-'),
            10 => assert_eq!(*c, ' '),
            13 | 16 => assert_eq!(*c, ':'),
            _ => assert!(c.is_ascii_digit()),
        }
    }
}

#[test]
fn time_pattern_without_fields_is_written_as_it_is() {
    colored::control::set_override(false);
    let mut config = LoggerBuilder::default();
    config.preset = LoggerPreset::THREAD;
    config.time_format = "at".to_string();
    let formatter = LineFormatter::new(&config, "proj");
    assert_eq!(
        formatter.format(&record("proj"), Some("main")),
        Some("at INFO  [main] hello".to_string())
    );
}

#[test]
fn time_pattern_that_cannot_be_read_gives_no_line() {
    colored::control::set_override(false);
    let mut config = LoggerBuilder::default();
    config.time_format = "%!".to_string();
    let formatter = LineFormatter::new(&config, "proj");
    assert_eq!(formatter.format(&record("proj"), Some("main")), None);
}

fn timed(pattern: &str) -> LineFormatter {
    let mut config = LoggerBuilder::default();
    config.preset = LoggerPreset::SIMPLE;
    config.time_format = pattern.to_string();
    LineFormatter::new(&config, "proj")
}

#[test]
fn line_at_the_start_of_1970() {
    colored::control::set_override(false);
    let formatter = timed("%Y-%m-%d %H:%M:%S");
    let start = Moment { seconds: 0, nanos: 0, offset_seconds: 0 };
    assert_eq!(
        formatter.format_at_moment(&record("proj"), Some("main"), start),
        Some("[ 1970-01-01 00:00:00 INFO ] hello".to_string())
    );
}

#[test]
fn line_at_a_later_moment() {
    colored::control::set_override(false);
    let formatter = timed("%Y-%m-%d %H:%M:%S");
    // 2024-05-06 07:08:09 UTC
    let moment = Moment { seconds: 1_714_979_289, nanos: 0, offset_seconds: 0 };
    assert_eq!(
        formatter.format_at_moment(&record("proj"), Some("main"), moment),
        Some("[ 2024-05-06 07:08:09 INFO ] hello".to_string())
    );
}

#[test]
fn moment_is_written_in_local_time() {
    colored::control::set_override(false);
    let formatter = timed("%Y-%m-%d %H:%M:%S %z");
    let east = Moment { seconds: 0, nanos: 0, offset_seconds: 3600 };
    assert_eq!(
        formatter.format_at_moment(&record("proj"), None, east),
        Some("[ 1970-01-01 01:00:00 +0100 INFO ] hello".to_string())
    );
    let west = Moment { seconds: 0, nanos: 0, offset_seconds: -5 * 3600 };
    assert_eq!(
        formatter.format_at_moment(&record("proj"), None, west),
        Some("[ 1969-12-31 19:00:00 -0500 INFO ] hello".to_string())
    );
}

#[test]
fn moment_with_a_fraction_of_a_second() {
    colored::control::set_override(false);
    let formatter = timed("%H:%M:%S%.3f");
    let moment = Moment { seconds: 3_661, nanos: 250_000_000, offset_seconds: 0 };
    assert_eq!(
        formatter.format_at_moment(&record("proj"), None, moment),
        Some("[ 01:01:01.250 INFO ] hello".to_string())
    );
}

#[test]
fn moment_that_cannot_be_written_gives_no_line() {
    colored::control::set_override(false);
    let start = Moment { seconds: 0, nanos: 0, offset_seconds: 0 };
    assert_eq!(timed("%!").format_at_moment(&record("proj"), None, start), None);
    let far_east = Moment { seconds: 0, nanos: 0, offset_seconds: 86_400 };
    assert_eq!(
        timed("%H:%M").format_at_moment(&record("proj"), None, far_east),
        None
    );
    let too_late = Moment { seconds: i64::MAX, nanos: 0, offset_seconds: 0 };
    assert_eq!(
        timed("%H:%M").format_at_moment(&record("proj"), None, too_late),
        None
    );
}

#[test]
fn same_moment_same_line() {
    colored::control::set_override(false);
    let formatter = timed("%Y-%m-%dT%H:%M:%S%.9f%:z");
    let moment = Moment { seconds: 1_714_979_289, nanos: 123_456_789, offset_seconds: 19_800 };
    let first = formatter.format_at_moment(&record("proj"), None, moment);
    let second = formatter.format_at_moment(&record("proj"), None, moment);
    assert_eq!(first, Some("[ 2024-05-06T12:38:09.123456789+05:30 INFO ] hello".to_string()));
    assert_eq!(first, second);
}
