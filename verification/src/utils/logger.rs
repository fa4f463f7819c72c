//! A levelled logger, as a layout of lines.
//!
//! The logger decides whether a message passes its level and what its
//! line holds. The host supplies the timestamp, paints the label where a
//! colour is named, and writes the line.

use crate::utils::text::{
    decimal, fixed_point, padded_right, push_decimal, push_fixed_point, push_padded_right,
    round_div, round_div_u128,
};
use vstd::prelude::*;
use vstd::string::StringExecFns;

verus! {

/// The severity of a message, from the least to the most severe.
#[derive(Debug, Clone, Copy, PartialEq, Eq, Structural)]
pub enum LogLevel {
    Debug,
    Info,
    Warn,
    Error,
    Fatal,
}

/// The colour a label is painted in.
#[derive(Debug, Clone, Copy, PartialEq, Eq, Structural)]
pub enum LabelColor {
    Cyan,
    Green,
    Yellow,
    Red,
    Magenta,
}

impl LogLevel {
    /// The level's place in the order of severity.
    pub open spec fn rank(self) -> nat {
        match self {
            LogLevel::Debug => 0,
            LogLevel::Info => 1,
            LogLevel::Warn => 2,
            LogLevel::Error => 3,
            LogLevel::Fatal => 4,
        }
    }

    /// The level's name in capitals.
    pub open spec fn label_text(self) -> Seq<char> {
        match self {
            LogLevel::Debug => "DEBUG"@,
            LogLevel::Info => "INFO"@,
            LogLevel::Warn => "WARN"@,
            LogLevel::Error => "ERROR"@,
            LogLevel::Fatal => "FATAL"@,
        }
    }

    /// The colour of the level's label.
    pub open spec fn color_of(self) -> LabelColor {
        match self {
            LogLevel::Debug => LabelColor::Cyan,
            LogLevel::Info => LabelColor::Green,
            LogLevel::Warn => LabelColor::Yellow,
            LogLevel::Error => LabelColor::Red,
            LogLevel::Fatal => LabelColor::Magenta,
        }
    }

    /// The level's place in the order of severity.
    pub fn severity(self) -> (r: u8)
        ensures
            r == self.rank(),
    {
        match self {
            LogLevel::Debug => 0,
            LogLevel::Info => 1,
            LogLevel::Warn => 2,
            LogLevel::Error => 3,
            LogLevel::Fatal => 4,
        }
    }

    /// The level's name in capitals.
    pub fn label(self) -> (text: &'static str)
        ensures
            text@ == self.label_text(),
    {
        match self {
            LogLevel::Debug => "DEBUG",
            LogLevel::Info => "INFO",
            LogLevel::Warn => "WARN",
            LogLevel::Error => "ERROR",
            LogLevel::Fatal => "FATAL",
        }
    }

    /// The colour of the level's label.
    pub fn color(self) -> (c: LabelColor)
        ensures
            c == self.color_of(),
    {
        match self {
            LogLevel::Debug => LabelColor::Cyan,
            LogLevel::Info => LabelColor::Green,
            LogLevel::Warn => LabelColor::Yellow,
            LogLevel::Error => LabelColor::Red,
            LogLevel::Fatal => LabelColor::Magenta,
        }
    }
}

/// One line of the log, in the three parts the host writes one after
/// another. Where `color` is named the host paints the label in it.
#[derive(Debug, Clone, PartialEq, Eq)]
pub struct LogLine {
    pub prefix: String,
    pub label: String,
    pub color: Option<LabelColor>,
    pub suffix: String,
}

/// The view of [`LogLine`] in specifications.
pub struct LogLineView {
    pub prefix: Seq<char>,
    pub label: Seq<char>,
    pub color: Option<LabelColor>,
    pub suffix: Seq<char>,
}

impl View for LogLine {
    type V = LogLineView;

    open spec fn view(&self) -> LogLineView {
        LogLineView {
            prefix: self.prefix@,
            label: self.label@,
            color: self.color,
            suffix: self.suffix@,
        }
    }
}

/// The line for a message: the timestamp in brackets, the label, a bar
/// and the message. A painted label stands as it is; a plain one is
/// padded to five characters.
pub open spec fn line_layout(
    severity: LogLevel,
    use_colors: bool,
    timestamp: Seq<char>,
    message: Seq<char>,
) -> LogLineView {
    LogLineView {
        prefix: "["@ + timestamp + "] "@,
        label: if use_colors {
            severity.label_text()
        } else {
            padded_right(severity.label_text(), 5)
        },
        color: if use_colors {
            Some(severity.color_of())
        } else {
            None
        },
        suffix: " | "@ + message,
    }
}

/// A logger: the least severity it lets through, and whether labels are
/// painted.
#[derive(Debug, Clone, Copy, PartialEq, Eq, Structural)]
pub struct Logger {
    pub level: LogLevel,
    pub use_colors: bool,
}

impl Logger {
    /// A logger at `level` that paints labels where its output is a
    /// terminal.
    pub fn new(level: LogLevel, is_terminal: bool) -> (logger: Self)
        ensures
            logger.level == level,
            logger.use_colors == is_terminal,
    {
        Self { level, use_colors: is_terminal }
    }

    pub fn new_with_options(level: LogLevel, use_colors: bool) -> (logger: Self)
        ensures
            logger.level == level,
            logger.use_colors == use_colors,
    {
        Self { level, use_colors }
    }

    /// Whether a message of `severity` passes this logger's level.
    pub fn enabled(&self, severity: LogLevel) -> (b: bool)
        ensures
            b == (severity.rank() >= self.level.rank()),
    {
        severity.severity() >= self.level.severity()
    }

    /// The line for a message of `severity`, or nothing where the
    /// severity is below the logger's level.
    pub fn log(&self, severity: LogLevel, timestamp: &str, message: &str) -> (line: Option<LogLine>)
        ensures
            line_view(line) == logged(*self, severity, timestamp@, message@),
    {
        if !self.enabled(severity) {
            return None;
        }
        let mut prefix = String::from_str("[");
        prefix.append(timestamp);
        prefix.append("] ");
        let mut label = String::new();
        if self.use_colors {
            label.append(severity.label());
        } else {
            push_padded_right(&mut label, severity.label(), 5);
        }
        let color = if self.use_colors {
            Some(severity.color())
        } else {
            None
        };
        let mut suffix = String::from_str(" | ");
        suffix.append(message);
        Some(LogLine { prefix, label, color, suffix })
    }

    pub fn debug(&self, timestamp: &str, message: &str) -> (line: Option<LogLine>)
        ensures
            line_view(line) == logged(*self, LogLevel::Debug, timestamp@, message@),
    {
        self.log(LogLevel::Debug, timestamp, message)
    }

    pub fn info(&self, timestamp: &str, message: &str) -> (line: Option<LogLine>)
        ensures
            line_view(line) == logged(*self, LogLevel::Info, timestamp@, message@),
    {
        self.log(LogLevel::Info, timestamp, message)
    }

    pub fn warn(&self, timestamp: &str, message: &str) -> (line: Option<LogLine>)
        ensures
            line_view(line) == logged(*self, LogLevel::Warn, timestamp@, message@),
    {
        self.log(LogLevel::Warn, timestamp, message)
    }

    pub fn error(&self, timestamp: &str, message: &str) -> (line: Option<LogLine>)
        ensures
            line_view(line) == logged(*self, LogLevel::Error, timestamp@, message@),
    {
        self.log(LogLevel::Error, timestamp, message)
    }

    pub fn fatal(&self, timestamp: &str, message: &str) -> (line: Option<LogLine>)
        ensures
            line_view(line) == logged(*self, LogLevel::Fatal, timestamp@, message@),
    {
        self.log(LogLevel::Fatal, timestamp, message)
    }

    /// The message that announces a timed operation.
    pub fn starting_message(message: &str) -> (text: String)
        ensures
            text@ == "Starting: "@ + message@,
    {
        let mut text = String::from_str("Starting: ");
        text.append(message);
        text
    }

    /// The message that closes a timed operation that took
    /// `elapsed_nanos` nanoseconds.
    pub fn completed_message(message: &str, elapsed_nanos: u128) -> (text: String)
        ensures
            text@ == "Completed: "@ + message@ + " ("@ + elapsed_text(elapsed_nanos as nat) + ")"@,
    {
        let mut text = String::from_str("Completed: ");
        text.append(message);
        text.append(" (");
        push_elapsed(&mut text, elapsed_nanos);
        text.append(")");
        text
    }

    /// The template of the progress bar for `message`.
    pub fn progress_template(message: &str) -> (text: String)
        ensures
            text@ == message@ + ": [{bar:30}] {percent}% ({pos}/{len})"@,
    {
        let mut text = String::from_str(message);
        text.append(": [{bar:30}] {percent}% ({pos}/{len})");
        text
    }

    /// Whether progress at `current` of `total` is complete, so that the
    /// bar is cleared.
    pub fn progress_complete(current: usize, total: usize) -> (done: bool)
        ensures
            done == (current >= total),
    {
        current >= total
    }
}

/// An elapsed time for a log line: minutes and seconds over a minute,
/// seconds to two decimals from one second up, whole milliseconds to two
/// decimals below. Seconds are rounded to the nearest hundredth, halves
/// up.
pub open spec fn elapsed_text(nanos: nat) -> Seq<char> {
    let secs = nanos / 1_000_000_000;
    if secs > 60 {
        decimal(secs / 60) + "m "@ + decimal(secs % 60) + "s"@
    } else if secs > 0 {
        fixed_point(round_div(nanos, 10_000_000), 2) + "s"@
    } else {
        fixed_point((nanos / 1_000_000) * 100, 2) + "ms"@
    }
}

/// Appends the log form of an elapsed time of `nanos` nanoseconds.
pub fn push_elapsed(out: &mut String, nanos: u128)
    ensures
        final(out)@ == old(out)@ + elapsed_text(nanos as nat),
{
    let secs: u128 = nanos / 1_000_000_000;
    if secs > 60 {
        push_decimal(out, secs / 60);
        out.append("m ");
        push_decimal(out, secs % 60);
        out.append("s");
    } else if secs > 0 {
        push_fixed_point(out, round_div_u128(nanos, 10_000_000), 2);
        out.append("s");
    } else {
        push_fixed_point(out, (nanos / 1_000_000) * 100, 2);
        out.append("ms");
    }
}

/// The log form of an elapsed time of `nanos` nanoseconds.
pub fn format_duration(nanos: u128) -> (s: String)
    ensures
        s@ == elapsed_text(nanos as nat),
{
    let mut s = String::new();
    push_elapsed(&mut s, nanos);
    s
}

/// What `logger` makes of a message: its line, or nothing where the
/// severity is below its level.
pub open spec fn logged(
    logger: Logger,
    severity: LogLevel,
    timestamp: Seq<char>,
    message: Seq<char>,
) -> Option<LogLineView> {
    if severity.rank() >= logger.level.rank() {
        Some(line_layout(severity, logger.use_colors, timestamp, message))
    } else {
        None
    }
}

/// The view of a line that may be missing.
pub open spec fn line_view(line: Option<LogLine>) -> Option<LogLineView> {
    match line {
        Some(l) => Some(l@),
        None => None,
    }
}

/// A logger whose lines go to a file. The host opens the file for
/// appending; the lines are laid out at the `Info` level without colours.
#[derive(Debug, Clone, Copy, PartialEq, Eq, Structural)]
pub struct FileLogger {
    pub logger: Logger,
}

impl FileLogger {
    pub fn new() -> (file_logger: Self)
        ensures
            file_logger.logger.level == LogLevel::Info,
            file_logger.logger.use_colors == false,
    {
        Self { logger: Logger { level: LogLevel::Info, use_colors: false } }
    }

    pub fn info(&self, timestamp: &str, message: &str) -> (line: Option<LogLine>)
        ensures
            line_view(line) == logged(self.logger, LogLevel::Info, timestamp@, message@),
    {
        self.logger.log(LogLevel::Info, timestamp, message)
    }

    pub fn error(&self, timestamp: &str, message: &str) -> (line: Option<LogLine>)
        ensures
            line_view(line) == logged(self.logger, LogLevel::Error, timestamp@, message@),
    {
        self.logger.log(LogLevel::Error, timestamp, message)
    }
}

/// Several loggers that get every message.
#[derive(Debug, Clone, PartialEq, Eq)]
pub struct MultiLogger {
    pub loggers: Vec<Logger>,
}

impl MultiLogger {
    pub fn new(loggers: Vec<Logger>) -> (multi: Self)
        ensures
            multi.loggers == loggers,
    {
        Self { loggers }
    }

    /// What each logger makes of the message, in the loggers' order.
    pub fn log(&self, severity: LogLevel, timestamp: &str, message: &str) -> (lines: Vec<
        Option<LogLine>,
    >)
        ensures
            lines@.len() == self.loggers@.len(),
            forall|i: int|
                0 <= i < lines@.len() ==> line_view(#[trigger] lines@[i]) == logged(
                    self.loggers@[i],
                    severity,
                    timestamp@,
                    message@,
                ),
    {
        let mut lines: Vec<Option<LogLine>> = Vec::new();
        let mut i: usize = 0;
        while i < self.loggers.len()
            invariant
                i <= self.loggers.len(),
                lines@.len() == i,
                forall|k: int|
                    0 <= k < i ==> line_view(#[trigger] lines@[k]) == logged(
                        self.loggers@[k],
                        severity,
                        timestamp@,
                        message@,
                    ),
            decreases self.loggers.len() - i,
        {
            lines.push(self.loggers[i].log(severity, timestamp, message));
            i = i + 1;
        }
        lines
    }

    pub fn debug(&self, timestamp: &str, message: &str) -> (lines: Vec<Option<LogLine>>)
        ensures
            lines@.len() == self.loggers@.len(),
            forall|i: int|
                0 <= i < lines@.len() ==> line_view(#[trigger] lines@[i]) == logged(
                    self.loggers@[i],
                    LogLevel::Debug,
                    timestamp@,
                    message@,
                ),
    {
        self.log(LogLevel::Debug, timestamp, message)
    }

    pub fn info(&self, timestamp: &str, message: &str) -> (lines: Vec<Option<LogLine>>)
        ensures
            lines@.len() == self.loggers@.len(),
            forall|i: int|
                0 <= i < lines@.len() ==> line_view(#[trigger] lines@[i]) == logged(
                    self.loggers@[i],
                    LogLevel::Info,
                    timestamp@,
                    message@,
                ),
    {
        self.log(LogLevel::Info, timestamp, message)
    }

    pub fn warn(&self, timestamp: &str, message: &str) -> (lines: Vec<Option<LogLine>>)
        ensures
            lines@.len() == self.loggers@.len(),
            forall|i: int|
                0 <= i < lines@.len() ==> line_view(#[trigger] lines@[i]) == logged(
                    self.loggers@[i],
                    LogLevel::Warn,
                    timestamp@,
                    message@,
                ),
    {
        self.log(LogLevel::Warn, timestamp, message)
    }

    pub fn error(&self, timestamp: &str, message: &str) -> (lines: Vec<Option<LogLine>>)
        ensures
            lines@.len() == self.loggers@.len(),
            forall|i: int|
                0 <= i < lines@.len() ==> line_view(#[trigger] lines@[i]) == logged(
                    self.loggers@[i],
                    LogLevel::Error,
                    timestamp@,
                    message@,
                ),
    {
        self.log(LogLevel::Error, timestamp, message)
    }

    pub fn fatal(&self, timestamp: &str, message: &str) -> (lines: Vec<Option<LogLine>>)
        ensures
            lines@.len() == self.loggers@.len(),
            forall|i: int|
                0 <= i < lines@.len() ==> line_view(#[trigger] lines@[i]) == logged(
                    self.loggers@[i],
                    LogLevel::Fatal,
                    timestamp@,
                    message@,
                ),
    {
        self.log(LogLevel::Fatal, timestamp, message)
    }
}

} // verus!
