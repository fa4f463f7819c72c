use basiccli::utils::logger::{
    format_duration, FileLogger, LabelColor, LogLevel, LogLine, Logger, MultiLogger,
};

fn plain(line: &LogLine) -> String {
    format!("{}{}{}", line.prefix, line.label, line.suffix)
}

#[test]
fn test_log_levels() {
    let logger = Logger::new(LogLevel::Info, false);
    assert!(logger.debug("t", "This should not appear").is_none());
    assert!(logger.info("t", "This should appear").is_some());
    assert!(logger.warn("t", "This should appear").is_some());
    assert!(logger.error("t", "This should appear").is_some());
}

#[test]
fn test_format_duration() {
    assert!(format_duration(500 * 1_000_000).contains("ms"));
    assert!(format_duration(5 * 1_000_000_000).contains("s"));
    assert!(format_duration(90 * 1_000_000_000).contains("m"));
}

#[test]
fn elapsed_times_are_exact() {
    assert_eq!(format_duration(500 * 1_000_000), "500.00ms");
    assert_eq!(format_duration(999_999), "0.00ms");
    assert_eq!(format_duration(5 * 1_000_000_000), "5.00s");
    assert_eq!(format_duration(1_234_000_000), "1.23s");
    assert_eq!(format_duration(1_236_000_000), "1.24s");
    assert_eq!(format_duration(60_999_000_000), "61.00s");
    assert_eq!(format_duration(61 * 1_000_000_000), "1m 1s");
    assert_eq!(format_duration(90 * 1_000_000_000), "1m 30s");
    assert_eq!(format_duration(3_600 * 1_000_000_000), "60m 0s");
}

#[test]
fn a_plain_line_pads_the_label_to_five() {
    let logger = Logger::new_with_options(LogLevel::Debug, false);
    let line = logger.info("2025-01-15T10:00:00.000", "ready").unwrap();
    assert_eq!(plain(&line), "[2025-01-15T10:00:00.000] INFO  | ready");
    assert_eq!(line.color, None);
    let line = logger.error("T", "broken").unwrap();
    assert_eq!(plain(&line), format!("[T] {:5} | broken", "ERROR"));
    let line = logger.warn("T", "careful").unwrap();
    assert_eq!(plain(&line), format!("[T] {:5} | careful", "WARN"));
}

#[test]
fn a_painted_line_names_the_colour_and_does_not_pad() {
    let logger = Logger::new_with_options(LogLevel::Debug, true);
    let line = logger.info("T", "ready").unwrap();
    assert_eq!(line.label, "INFO");
    assert_eq!(line.color, Some(LabelColor::Green));
    assert_eq!(logger.debug("T", "m").unwrap().color, Some(LabelColor::Cyan));
    assert_eq!(logger.warn("T", "m").unwrap().color, Some(LabelColor::Yellow));
    assert_eq!(logger.error("T", "m").unwrap().color, Some(LabelColor::Red));
    assert_eq!(logger.fatal("T", "m").unwrap().color, Some(LabelColor::Magenta));
    assert_eq!(LogLevel::Fatal.label(), "FATAL");
    assert_eq!(LogLevel::Debug.label(), "DEBUG");
}

#[test]
fn the_level_decides_what_passes() {
    let levels =
        [LogLevel::Debug, LogLevel::Info, LogLevel::Warn, LogLevel::Error, LogLevel::Fatal];
    for (i, level) in levels.iter().enumerate() {
        let logger = Logger::new_with_options(*level, false);
        for (j, severity) in levels.iter().enumerate() {
            assert_eq!(logger.enabled(*severity), j >= i);
            assert_eq!(logger.log(*severity, "T", "m").is_some(), j >= i);
        }
    }
}

#[test]
fn a_file_logger_is_plain_and_at_info() {
    let logger = FileLogger::new();
    assert_eq!(plain(&logger.info("T", "m").unwrap()), "[T] INFO  | m");
    assert_eq!(plain(&logger.error("T", "m").unwrap()), "[T] ERROR | m");
    assert_eq!(logger.logger.level, LogLevel::Info);
}

#[test]
fn a_multi_logger_asks_every_logger() {
    let multi = MultiLogger::new(vec![
        Logger::new_with_options(LogLevel::Debug, false),
        Logger::new_with_options(LogLevel::Error, false),
    ]);
    let lines = multi.info("T", "m");
    assert_eq!(lines.len(), 2);
    assert!(lines[0].is_some());
    assert!(lines[1].is_none());
    assert_eq!(multi.fatal("T", "m").iter().filter(|l| l.is_some()).count(), 2);
    assert_eq!(multi.debug("T", "m").iter().filter(|l| l.is_some()).count(), 1);
    assert_eq!(multi.warn("T", "m").iter().filter(|l| l.is_some()).count(), 1);
    assert_eq!(multi.error("T", "m").iter().filter(|l| l.is_some()).count(), 2);
}

#[test]
fn timing_messages_and_progress() {
    assert_eq!(Logger::starting_message("Test operation"), "Starting: Test operation");
    assert_eq!(
        Logger::completed_message("Test operation", 10 * 1_000_000),
        "Completed: Test operation (10.00ms)"
    );
    assert_eq!(
        Logger::progress_template("Copying"),
        "Copying: [{bar:30}] {percent}% ({pos}/{len})"
    );
    assert!(Logger::progress_complete(10, 10));
    assert!(Logger::progress_complete(11, 10));
    assert!(!Logger::progress_complete(9, 10));
}
