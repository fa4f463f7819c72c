//! Format-aware file operations, written against a small request/reply
//! protocol.
//!
//! Nothing here touches a disk. An operation is a [`FileTask`]: it names the
//! primitive it needs next as an [`FsRequest`], the host performs it and
//! hands back an [`FsReply`], and [`FileTask::advance`] decides what follows.
//! The host therefore holds no rule of its own: which probe comes first,
//! when an operation gives up and which error it reports are all fixed, and
//! proved, here.

use crate::utils::file_task::{FileOp, FileOpView, FileTask, FileTaskView, Step, StepView};
use crate::utils::json::invalid_json;
use crate::utils::records::{Entry, Record};
use crate::utils::tabular::{
    encode_records, encoded_records, entries_of, parse_records, parsed_records,
};
use crate::utils::text::{decimal, octal, push_decimal, push_octal};
use vstd::prelude::*;
use vstd::string::StringExecFns;

verus! {

/// Why a file operation failed. Each kind carries the offending path or the
/// reason as text; `UnsupportedAlgorithm` carries the name that selects
/// no digest algorithm.
#[derive(Debug, Clone, PartialEq, Eq)]
pub enum FileError {
    NotFound(String),
    ReadError(String, String),
    WriteError(String, String),
    InvalidJson(String),
    InvalidYaml(String),
    InvalidCsv(String),
    UnsupportedFormat(String),
    UnsupportedAlgorithm(String),
    OperationFailed(String),
}

/// The view of [`FileError`] in specifications.
pub enum FileErrorView {
    NotFound(Seq<char>),
    ReadError(Seq<char>, Seq<char>),
    WriteError(Seq<char>, Seq<char>),
    InvalidJson(Seq<char>),
    InvalidYaml(Seq<char>),
    InvalidCsv(Seq<char>),
    UnsupportedFormat(Seq<char>),
    UnsupportedAlgorithm(Seq<char>),
    OperationFailed(Seq<char>),
}

impl View for FileError {
    type V = FileErrorView;

    open spec fn view(&self) -> FileErrorView {
        match self {
            FileError::NotFound(p) => FileErrorView::NotFound(p@),
            FileError::ReadError(p, m) => FileErrorView::ReadError(p@, m@),
            FileError::WriteError(p, m) => FileErrorView::WriteError(p@, m@),
            FileError::InvalidJson(m) => FileErrorView::InvalidJson(m@),
            FileError::InvalidYaml(m) => FileErrorView::InvalidYaml(m@),
            FileError::InvalidCsv(m) => FileErrorView::InvalidCsv(m@),
            FileError::UnsupportedFormat(m) => FileErrorView::UnsupportedFormat(m@),
            FileError::UnsupportedAlgorithm(m) => FileErrorView::UnsupportedAlgorithm(m@),
            FileError::OperationFailed(m) => FileErrorView::OperationFailed(m@),
        }
    }
}

impl FileErrorView {
    /// The line a user is shown for this error.
    pub open spec fn message(self) -> Seq<char> {
        match self {
            FileErrorView::NotFound(p) => "File not found: "@ + p,
            FileErrorView::ReadError(p, m) => "Failed to read "@ + p + ": "@ + m,
            FileErrorView::WriteError(p, m) => "Failed to write "@ + p + ": "@ + m,
            FileErrorView::InvalidJson(m) => "Invalid JSON: "@ + m,
            FileErrorView::InvalidYaml(m) => "Invalid YAML: "@ + m,
            FileErrorView::InvalidCsv(m) => "Invalid CSV: "@ + m,
            FileErrorView::UnsupportedFormat(m) => "Unsupported format: "@ + m,
            FileErrorView::UnsupportedAlgorithm(m) => "Unsupported algorithm: "@ + m,
            FileErrorView::OperationFailed(m) => "File operation failed: "@ + m,
        }
    }
}

impl FileError {
    /// The line a user is shown for this error.
    pub fn message(&self) -> (s: String)
        ensures
            s@ == self@.message(),
    {
        match self {
            FileError::NotFound(p) => {
                let mut s = String::from_str("File not found: ");
                s.append(p.as_str());
                s
            },
            FileError::ReadError(p, m) => {
                let mut s = String::from_str("Failed to read ");
                s.append(p.as_str());
                s.append(": ");
                s.append(m.as_str());
                s
            },
            FileError::WriteError(p, m) => {
                let mut s = String::from_str("Failed to write ");
                s.append(p.as_str());
                s.append(": ");
                s.append(m.as_str());
                s
            },
            FileError::InvalidJson(m) => {
                let mut s = String::from_str("Invalid JSON: ");
                s.append(m.as_str());
                s
            },
            FileError::InvalidYaml(m) => {
                let mut s = String::from_str("Invalid YAML: ");
                s.append(m.as_str());
                s
            },
            FileError::InvalidCsv(m) => {
                let mut s = String::from_str("Invalid CSV: ");
                s.append(m.as_str());
                s
            },
            FileError::UnsupportedFormat(m) => {
                let mut s = String::from_str("Unsupported format: ");
                s.append(m.as_str());
                s
            },
            FileError::UnsupportedAlgorithm(m) => {
                let mut s = String::from_str("Unsupported algorithm: ");
                s.append(m.as_str());
                s
            },
            FileError::OperationFailed(m) => {
                let mut s = String::from_str("File operation failed: ");
                s.append(m.as_str());
                s
            },
        }
    }
}

/// A point in time, as nanoseconds from the Unix epoch; negative before it.
#[derive(Debug, Clone, Copy, PartialEq, Eq, Structural)]
pub struct Timestamp {
    pub nanos_since_epoch: i128,
}

/// What the host reports about a path: the raw facts a [`FileStats`] is
/// drawn from.
#[derive(Debug, Clone, Copy, PartialEq, Eq)]
pub struct FileMetadata {
    pub size: u64,
    pub modified_at: Timestamp,
    pub created_at: Option<Timestamp>,
    pub accessed_at: Option<Timestamp>,
    pub is_directory: bool,
    pub is_file: bool,
    /// The Unix mode bits, where the platform has them.
    pub mode: Option<u32>,
}

/// A read-only snapshot of a path's metadata.
#[derive(Debug, Clone, PartialEq, Eq)]
pub struct FileStats {
    pub size: u64,
    pub modified_at: Timestamp,
    pub created_at: Option<Timestamp>,
    pub accessed_at: Option<Timestamp>,
    pub is_directory: bool,
    pub is_file: bool,
    pub permissions: String,
}

/// The view of [`FileStats`] in specifications.
pub struct FileStatsView {
    pub size: u64,
    pub modified_at: Timestamp,
    pub created_at: Option<Timestamp>,
    pub accessed_at: Option<Timestamp>,
    pub is_directory: bool,
    pub is_file: bool,
    pub permissions: Seq<char>,
}

impl View for FileStats {
    type V = FileStatsView;

    open spec fn view(&self) -> FileStatsView {
        FileStatsView {
            size: self.size,
            modified_at: self.modified_at,
            created_at: self.created_at,
            accessed_at: self.accessed_at,
            is_directory: self.is_directory,
            is_file: self.is_file,
            permissions: self.permissions@,
        }
    }
}

/// The permission text for a mode: the three lowest octal digits' worth of
/// bits, written in octal; a fixed placeholder where there is no mode.
pub open spec fn permission_text(mode: Option<u32>) -> Seq<char> {
    match mode {
        Some(m) => octal((m & 0o777) as nat),
        None => "N/A"@,
    }
}

impl FileMetadata {
    /// The snapshot that these raw facts amount to.
    pub open spec fn stats(self) -> FileStatsView {
        FileStatsView {
            size: self.size,
            modified_at: self.modified_at,
            created_at: self.created_at,
            accessed_at: self.accessed_at,
            is_directory: self.is_directory,
            is_file: self.is_file,
            permissions: permission_text(self.mode),
        }
    }

    /// The snapshot that these raw facts amount to.
    pub fn to_stats(&self) -> (s: FileStats)
        ensures
            s@ == self.stats(),
    {
        let permissions = match self.mode {
            Some(m) => {
                let mut text = String::new();
                push_octal(&mut text, m & 0o777);
                text
            },
            None => String::from_str("N/A"),
        };
        FileStats {
            size: self.size,
            modified_at: self.modified_at,
            created_at: self.created_at,
            accessed_at: self.accessed_at,
            is_directory: self.is_directory,
            is_file: self.is_file,
            permissions,
        }
    }
}

/// The extension of the temporary file that an atomic write by process
/// `pid` goes through.
pub open spec fn temp_extension_text(pid: u32) -> Seq<char> {
    "tmp."@ + decimal(pid as nat)
}

/// The operations on files. Each one returns the first [`Step`] of the
/// operation; the host answers the requests until the step is
/// `Finished`.
pub struct FileHandler;

impl FileHandler {
    /// Reads a file as text. A path that does not exist gives `NotFound`
    /// before any read is tried.
    pub fn read(path: &str) -> (step: Step)
        ensures
            step@ == FileTaskView::start(FileOpView::Read(path@)),
    {
        FileTask::start(FileOp::Read(String::from_str(path)))
    }

    /// Writes text to a file, creating the directories above it first.
    pub fn write(path: &str, content: &str) -> (step: Step)
        ensures
            step@ == FileTaskView::start(FileOpView::Write(path@, content@)),
    {
        FileTask::start(FileOp::Write(String::from_str(path), String::from_str(content)))
    }

    /// Reads the text of a JSON file. The caller parses the text and hands
    /// the outcome to [`FileHandler::parsed_json`].
    pub fn read_json(path: &str) -> (step: Step)
        ensures
            step@ == FileTaskView::start(FileOpView::Read(path@)),
    {
        Self::read(path)
    }

    /// The result of reading JSON, given what parsing the text gave: the
    /// value, or the parser's message. The value is handed on unchanged;
    /// a message gives `InvalidJson` with that message.
    pub fn parsed_json<T>(parsed: Result<T, String>) -> (r: Result<T, FileError>)
        ensures
            match (parsed, r) {
                (Ok(value), Ok(same)) => value == same,
                (Err(message), Err(e)) => e@ == FileErrorView::InvalidJson(message@),
                _ => false,
            },
    {
        match parsed {
            Ok(value) => Ok(value),
            Err(message) => Err(invalid_json(message)),
        }
    }

    /// Writes serialized JSON to a file. `serialized` is what serializing
    /// the data gave: the text, or the serializer's message. A message
    /// ends the operation with `InvalidJson` with that message, and
    /// nothing is written.
    pub fn write_json(path: &str, serialized: Result<String, String>) -> (step: Step)
        ensures
            match serialized {
                Ok(text) => step@ == FileTaskView::start(FileOpView::Write(path@, text@)),
                Err(message) => step@ == StepView::Finished(
                    Err(FileErrorView::InvalidJson(message@)),
                ),
            },
    {
        match serialized {
            Ok(text) => FileTask::start(FileOp::Write(String::from_str(path), text)),
            Err(message) => Step::Finished(Err(invalid_json(message))),
        }
    }

    /// Reads the text of a YAML file. The caller parses the text and hands
    /// the outcome to [`FileHandler::parsed_yaml`].
    pub fn read_yaml(path: &str) -> (step: Step)
        ensures
            step@ == FileTaskView::start(FileOpView::Read(path@)),
    {
        Self::read(path)
    }

    /// The result of reading YAML, given what parsing the text gave: the
    /// value, or the parser's message. The value is handed on unchanged;
    /// a message gives `InvalidYaml` with that message.
    pub fn parsed_yaml<T>(parsed: Result<T, String>) -> (r: Result<T, FileError>)
        ensures
            match (parsed, r) {
                (Ok(value), Ok(same)) => value == same,
                (Err(message), Err(e)) => e@ == FileErrorView::InvalidYaml(message@),
                _ => false,
            },
    {
        match parsed {
            Ok(value) => Ok(value),
            Err(message) => Err(FileError::InvalidYaml(message)),
        }
    }

    /// Writes serialized YAML to a file. `serialized` is what serializing
    /// the data gave: the text, or the serializer's message. A message
    /// ends the operation with `InvalidYaml` with that message, and
    /// nothing is written.
    pub fn write_yaml(path: &str, serialized: Result<String, String>) -> (step: Step)
        ensures
            match serialized {
                Ok(text) => step@ == FileTaskView::start(FileOpView::Write(path@, text@)),
                Err(message) => step@ == StepView::Finished(
                    Err(FileErrorView::InvalidYaml(message@)),
                ),
            },
    {
        match serialized {
            Ok(text) => FileTask::start(FileOp::Write(String::from_str(path), text)),
            Err(message) => Step::Finished(Err(FileError::InvalidYaml(message))),
        }
    }

    /// Reads the bytes of a comma-separated file. The caller hands them to
    /// [`FileHandler::parsed_csv`].
    pub fn read_csv(path: &str) -> (step: Step)
        ensures
            step@ == FileTaskView::start(FileOpView::Load(path@)),
    {
        FileTask::start(FileOp::Load(String::from_str(path)))
    }

    /// The records of comma-separated `data`: the first row names the
    /// columns, every later row is a record from column name to field,
    /// and a row shorter than the header leaves the later keys out. Data
    /// that the `csv` reader refuses gives `InvalidCsv` with its message.
    pub fn parsed_csv(data: &[u8]) -> (r: Result<Vec<Record>, FileError>)
        ensures
            match r {
                Ok(records) => parsed_records(data@) == Ok::<
                    Seq<Seq<Entry<Seq<char>>>>,
                    FileErrorView,
                >(entries_of(records@)),
                Err(e) => parsed_records(data@) == Err::<
                    Seq<Seq<Entry<Seq<char>>>>,
                    FileErrorView,
                >(e@),
            },
    {
        parse_records(data)
    }

    /// Writes records as comma-separated text. No record gives an empty
    /// file, written as [`FileHandler::write`] writes; records that cannot
    /// be written end the operation with `InvalidCsv`, with the writer's
    /// message, before anything is asked of the file system.
    pub fn write_csv(path: &str, records: &Vec<Record>) -> (step: Step)
        ensures
            records@.len() == 0 ==> step@ == FileTaskView::start(
                FileOpView::Write(path@, Seq::empty()),
            ),
            records@.len() > 0 ==> match encoded_records(entries_of(records@)) {
                Ok(bytes) => step@ == FileTaskView::start(FileOpView::Store(path@, bytes)),
                Err(e) => step@ == StepView::Finished(Err(e)),
            },
    {
        if records.len() == 0 {
            return FileTask::start(FileOp::Write(String::from_str(path), String::new()));
        }
        match encode_records(records) {
            Ok(bytes) => FileTask::start(FileOp::Store(String::from_str(path), bytes)),
            Err(e) => Step::Finished(Err(e)),
        }
    }

    /// Copies a file. A source that does not exist gives `NotFound`.
    pub fn copy(source: &str, destination: &str) -> (step: Step)
        ensures
            step@ == FileTaskView::start(FileOpView::Copy(source@, destination@)),
    {
        FileTask::start(FileOp::Copy(String::from_str(source), String::from_str(destination)))
    }

    /// Moves a file by renaming it. A source that does not exist gives
    /// `NotFound`.
    pub fn move_file(source: &str, destination: &str) -> (step: Step)
        ensures
            step@ == FileTaskView::start(FileOpView::Move(source@, destination@)),
    {
        FileTask::start(FileOp::Move(String::from_str(source), String::from_str(destination)))
    }

    /// Deletes a file. The result is the flag `false` where the path does
    /// not exist, `true` where a file was removed.
    pub fn delete(path: &str) -> (step: Step)
        ensures
            step@ == FileTaskView::start(FileOpView::Delete(path@)),
    {
        FileTask::start(FileOp::Delete(String::from_str(path)))
    }

    /// Whether the path exists, as a flag. The operation has no error: a
    /// host that cannot tell has found nothing.
    pub fn path_exists(path: &str) -> (step: Step)
        ensures
            step@ == FileTaskView::start(FileOpView::Exists(path@)),
    {
        FileTask::start(FileOp::Exists(String::from_str(path)))
    }

    /// The size of a file in bytes.
    pub fn size(path: &str) -> (step: Step)
        ensures
            step@ == FileTaskView::start(FileOpView::Size(path@)),
    {
        FileTask::start(FileOp::Size(String::from_str(path)))
    }

    /// The checksum of a file's content under `md5`, `sha1`, `sha256` or
    /// `sha512`, in lower-case hexadecimal. Any other name is refused, once
    /// the file was read, with the message `Unsupported algorithm: ` and
    /// the name.
    pub fn checksum(path: &str, algorithm: &str) -> (step: Step)
        ensures
            step@ == FileTaskView::start(FileOpView::Checksum(path@, algorithm@)),
    {
        FileTask::start(FileOp::Checksum(String::from_str(path), String::from_str(algorithm)))
    }

    /// A snapshot of the path's metadata.
    pub fn stats(path: &str) -> (step: Step)
        ensures
            step@ == FileTaskView::start(FileOpView::Stats(path@)),
    {
        FileTask::start(FileOp::Stats(String::from_str(path)))
    }

    /// Writes text through a temporary file that is then renamed over the
    /// path, so that the path never holds a partial write.
    pub fn atomic_write(path: &str, temp_path: &str, content: &str) -> (step: Step)
        ensures
            step@ == FileTaskView::start(FileOpView::AtomicWrite(path@, temp_path@, content@)),
    {
        FileTask::start(
            FileOp::AtomicWrite(
                String::from_str(path),
                String::from_str(temp_path),
                String::from_str(content),
            ),
        )
    }

    /// The extension of the temporary file for process `pid`.
    pub fn temp_extension(pid: u32) -> (s: String)
        ensures
            s@ == temp_extension_text(pid),
    {
        let mut s = String::from_str("tmp.");
        push_decimal(&mut s, pid as u128);
        s
    }
}

} // verus!
