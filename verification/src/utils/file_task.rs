//! The request/reply protocol that file operations are written against.
//!
//! Every operation has a fixed script of primitives. The host answers one
//! request at a time; a failure, or a probe that finds nothing, ends the
//! operation at once, so that no later primitive of the script is asked for.

use crate::utils::digest::{
    checksum_text, is_lower_hex, lemma_checksum_shape, to_hex, Algorithm,
};
use crate::utils::file_handler::{
    FileError, FileErrorView, FileMetadata, FileStats, FileStatsView,
};
use vstd::prelude::*;
use vstd::string::StringExecFns;

verus! {

/// One primitive that the host is asked to perform on the file system.
#[derive(Debug, Clone, PartialEq, Eq)]
pub enum FsRequest {
    /// Does the path exist? Answered by [`FsReply::Exists`].
    Exists(String),
    /// Read the whole file as text. Answered by [`FsReply::Text`].
    ReadText(String),
    /// Read the whole file as bytes. Answered by [`FsReply::Bytes`].
    ReadBytes(String),
    /// Create every missing directory above the path.
    CreateParentDirs(String),
    /// Replace the file's content with the text.
    WriteText(String, String),
    /// Replace the file's content with the bytes.
    WriteBytes(String, Vec<u8>),
    /// Copy the first path's content to the second.
    Copy(String, String),
    /// Rename the first path to the second.
    Rename(String, String),
    /// Remove the file.
    Remove(String),
    /// Report the path's metadata. Answered by [`FsReply::Metadata`].
    Metadata(String),
}

/// The view of [`FsRequest`] in specifications.
pub enum FsRequestView {
    Exists(Seq<char>),
    ReadText(Seq<char>),
    ReadBytes(Seq<char>),
    CreateParentDirs(Seq<char>),
    WriteText(Seq<char>, Seq<char>),
    WriteBytes(Seq<char>, Seq<u8>),
    Copy(Seq<char>, Seq<char>),
    Rename(Seq<char>, Seq<char>),
    Remove(Seq<char>),
    Metadata(Seq<char>),
}

impl View for FsRequest {
    type V = FsRequestView;

    open spec fn view(&self) -> FsRequestView {
        match self {
            FsRequest::Exists(p) => FsRequestView::Exists(p@),
            FsRequest::ReadText(p) => FsRequestView::ReadText(p@),
            FsRequest::ReadBytes(p) => FsRequestView::ReadBytes(p@),
            FsRequest::CreateParentDirs(p) => FsRequestView::CreateParentDirs(p@),
            FsRequest::WriteText(p, c) => FsRequestView::WriteText(p@, c@),
            FsRequest::WriteBytes(p, c) => FsRequestView::WriteBytes(p@, c@),
            FsRequest::Copy(s, d) => FsRequestView::Copy(s@, d@),
            FsRequest::Rename(s, d) => FsRequestView::Rename(s@, d@),
            FsRequest::Remove(p) => FsRequestView::Remove(p@),
            FsRequest::Metadata(p) => FsRequestView::Metadata(p@),
        }
    }
}

impl FsRequestView {
    /// The path the request is about; the source, where there are two.
    pub open spec fn subject(self) -> Seq<char> {
        match self {
            FsRequestView::Exists(p) => p,
            FsRequestView::ReadText(p) => p,
            FsRequestView::ReadBytes(p) => p,
            FsRequestView::CreateParentDirs(p) => p,
            FsRequestView::WriteText(p, _) => p,
            FsRequestView::WriteBytes(p, _) => p,
            FsRequestView::Copy(s, _) => s,
            FsRequestView::Rename(s, _) => s,
            FsRequestView::Remove(p) => p,
            FsRequestView::Metadata(p) => p,
        }
    }

    /// Whether performing the request can change the file system.
    pub open spec fn mutates(self) -> bool {
        match self {
            FsRequestView::Exists(_) => false,
            FsRequestView::ReadText(_) => false,
            FsRequestView::ReadBytes(_) => false,
            FsRequestView::Metadata(_) => false,
            _ => true,
        }
    }
}

/// The host's answer to one request.
#[derive(Debug, Clone, PartialEq, Eq)]
pub enum FsReply {
    Exists(bool),
    Text(String),
    Bytes(Vec<u8>),
    Metadata(FileMetadata),
    /// The primitive was performed and has nothing to report.
    Done,
    /// The primitive failed; the text is the underlying reason.
    Failed(String),
}

/// The view of [`FsReply`] in specifications.
pub enum FsReplyView {
    Exists(bool),
    Text(Seq<char>),
    Bytes(Seq<u8>),
    Metadata(FileMetadata),
    Done,
    Failed(Seq<char>),
}

impl View for FsReply {
    type V = FsReplyView;

    open spec fn view(&self) -> FsReplyView {
        match self {
            FsReply::Exists(b) => FsReplyView::Exists(*b),
            FsReply::Text(s) => FsReplyView::Text(s@),
            FsReply::Bytes(b) => FsReplyView::Bytes(b@),
            FsReply::Metadata(m) => FsReplyView::Metadata(*m),
            FsReply::Done => FsReplyView::Done,
            FsReply::Failed(m) => FsReplyView::Failed(m@),
        }
    }
}

/// What a finished operation hands back.
#[derive(Debug, Clone, PartialEq, Eq)]
pub enum FileOutput {
    Done,
    Text(String),
    Bytes(Vec<u8>),
    Flag(bool),
    Size(u64),
    Stats(FileStats),
}

/// The view of [`FileOutput`] in specifications.
pub enum FileOutputView {
    Done,
    Text(Seq<char>),
    Bytes(Seq<u8>),
    Flag(bool),
    Size(u64),
    Stats(FileStatsView),
}

impl View for FileOutput {
    type V = FileOutputView;

    open spec fn view(&self) -> FileOutputView {
        match self {
            FileOutput::Done => FileOutputView::Done,
            FileOutput::Text(s) => FileOutputView::Text(s@),
            FileOutput::Bytes(b) => FileOutputView::Bytes(b@),
            FileOutput::Flag(b) => FileOutputView::Flag(*b),
            FileOutput::Size(n) => FileOutputView::Size(*n),
            FileOutput::Stats(s) => FileOutputView::Stats(s@),
        }
    }
}

/// An operation on files, with everything it was asked with.
#[derive(Debug, Clone, PartialEq, Eq)]
pub enum FileOp {
    /// Read a file that must exist, as text.
    Read(String),
    /// Write text, creating the directories above the path first.
    Write(String, String),
    /// Write text to the temporary path, then rename it over the path.
    AtomicWrite(String, String, String),
    /// Read a file as bytes, without probing for it first.
    Load(String),
    /// Write bytes, without creating directories.
    Store(String, Vec<u8>),
    Copy(String, String),
    Move(String, String),
    Delete(String),
    Exists(String),
    Size(String),
    Stats(String),
    /// The checksum of a file under the algorithm of the given name.
    Checksum(String, String),
}

/// The view of [`FileOp`] in specifications.
pub enum FileOpView {
    Read(Seq<char>),
    Write(Seq<char>, Seq<char>),
    AtomicWrite(Seq<char>, Seq<char>, Seq<char>),
    Load(Seq<char>),
    Store(Seq<char>, Seq<u8>),
    Copy(Seq<char>, Seq<char>),
    Move(Seq<char>, Seq<char>),
    Delete(Seq<char>),
    Exists(Seq<char>),
    Size(Seq<char>),
    Stats(Seq<char>),
    Checksum(Seq<char>, Seq<char>),
}

impl View for FileOp {
    type V = FileOpView;

    open spec fn view(&self) -> FileOpView {
        match self {
            FileOp::Read(p) => FileOpView::Read(p@),
            FileOp::Write(p, c) => FileOpView::Write(p@, c@),
            FileOp::AtomicWrite(p, t, c) => FileOpView::AtomicWrite(p@, t@, c@),
            FileOp::Load(p) => FileOpView::Load(p@),
            FileOp::Store(p, b) => FileOpView::Store(p@, b@),
            FileOp::Copy(s, d) => FileOpView::Copy(s@, d@),
            FileOp::Move(s, d) => FileOpView::Move(s@, d@),
            FileOp::Delete(p) => FileOpView::Delete(p@),
            FileOp::Exists(p) => FileOpView::Exists(p@),
            FileOp::Size(p) => FileOpView::Size(p@),
            FileOp::Stats(p) => FileOpView::Stats(p@),
            FileOp::Checksum(p, a) => FileOpView::Checksum(p@, a@),
        }
    }
}

impl FileOpView {
    /// The primitives the operation needs, in the order it asks for them.
    pub open spec fn script(self) -> Seq<FsRequestView> {
        match self {
            FileOpView::Read(p) => seq![FsRequestView::Exists(p), FsRequestView::ReadText(p)],
            FileOpView::Write(p, c) => seq![
                FsRequestView::CreateParentDirs(p),
                FsRequestView::WriteText(p, c),
            ],
            FileOpView::AtomicWrite(p, t, c) => seq![
                FsRequestView::CreateParentDirs(t),
                FsRequestView::WriteText(t, c),
                FsRequestView::Rename(t, p),
            ],
            FileOpView::Load(p) => seq![FsRequestView::ReadBytes(p)],
            FileOpView::Store(p, b) => seq![FsRequestView::WriteBytes(p, b)],
            FileOpView::Copy(s, d) => seq![
                FsRequestView::Exists(s),
                FsRequestView::CreateParentDirs(d),
                FsRequestView::Copy(s, d),
            ],
            FileOpView::Move(s, d) => seq![
                FsRequestView::Exists(s),
                FsRequestView::CreateParentDirs(d),
                FsRequestView::Rename(s, d),
            ],
            FileOpView::Delete(p) => seq![FsRequestView::Exists(p), FsRequestView::Remove(p)],
            FileOpView::Exists(p) => seq![FsRequestView::Exists(p)],
            FileOpView::Size(p) => seq![FsRequestView::Exists(p), FsRequestView::Metadata(p)],
            FileOpView::Stats(p) => seq![FsRequestView::Exists(p), FsRequestView::Metadata(p)],
            FileOpView::Checksum(p, _) => seq![
                FsRequestView::Exists(p),
                FsRequestView::ReadBytes(p),
            ],
        }
    }

    /// The result when a probe at the head of the script finds nothing:
    /// deleting what is not there is no error, everything else is.
    pub open spec fn absent(self, path: Seq<char>) -> Result<FileOutputView, FileErrorView> {
        match self {
            FileOpView::Delete(_) => Ok(FileOutputView::Flag(false)),
            _ => Err(FileErrorView::NotFound(path)),
        }
    }

    /// The result when the primitive `request` failed with `reason`. To
    /// ask whether a path exists has no error: a probe that could not be
    /// made found nothing. Every other operation fails with the error of
    /// the primitive.
    pub open spec fn failed(self, request: FsRequestView, reason: Seq<char>) -> Result<
        FileOutputView,
        FileErrorView,
    > {
        match self {
            FileOpView::Exists(_) => Ok(FileOutputView::Flag(false)),
            _ => Err(failure(request, reason)),
        }
    }

    /// The result when the host's reply does not answer what was asked.
    /// To ask whether a path exists has no error, so nothing was found;
    /// every other operation ends with a protocol error.
    pub open spec fn off_script(self) -> Result<FileOutputView, FileErrorView> {
        match self {
            FileOpView::Exists(_) => Ok(FileOutputView::Flag(false)),
            _ => Err(protocol_error()),
        }
    }

    /// The result once the last primitive of the script was answered with
    /// `reply`.
    pub open spec fn conclude(self, reply: FsReplyView) -> Result<FileOutputView, FileErrorView> {
        match (self, reply) {
            (FileOpView::Read(_), FsReplyView::Text(s)) => Ok(FileOutputView::Text(s)),
            (FileOpView::Write(_, _), FsReplyView::Done) => Ok(FileOutputView::Done),
            (FileOpView::AtomicWrite(_, _, _), FsReplyView::Done) => Ok(FileOutputView::Done),
            (FileOpView::Load(_), FsReplyView::Bytes(b)) => Ok(FileOutputView::Bytes(b)),
            (FileOpView::Store(_, _), FsReplyView::Done) => Ok(FileOutputView::Done),
            (FileOpView::Copy(_, _), FsReplyView::Done) => Ok(FileOutputView::Done),
            (FileOpView::Move(_, _), FsReplyView::Done) => Ok(FileOutputView::Done),
            (FileOpView::Delete(_), FsReplyView::Done) => Ok(FileOutputView::Flag(true)),
            (FileOpView::Exists(_), FsReplyView::Exists(b)) => Ok(FileOutputView::Flag(b)),
            (FileOpView::Size(_), FsReplyView::Metadata(m)) => Ok(FileOutputView::Size(m.size)),
            (FileOpView::Stats(_), FsReplyView::Metadata(m)) => Ok(
                FileOutputView::Stats(m.stats()),
            ),
            (FileOpView::Checksum(_, name), FsReplyView::Bytes(b)) => checksum_outcome(name, b),
            _ => Err(protocol_error()),
        }
    }
}

/// The checksum text of `data` under the algorithm called `name`, or the
/// error for a name that selects none.
pub open spec fn checksum_outcome(name: Seq<char>, data: Seq<u8>) -> Result<
    FileOutputView,
    FileErrorView,
> {
    match Algorithm::named(name) {
        Some(algorithm) => Ok(FileOutputView::Text(checksum_text(algorithm, data))),
        None => Err(FileErrorView::UnsupportedAlgorithm(name)),
    }
}

/// The error for a reply that does not answer the request it was given for.
pub open spec fn protocol_error() -> FileErrorView {
    FileErrorView::OperationFailed("unexpected reply"@)
}

/// Whether `reply` is a kind of answer that `request` can get. A failure
/// answers anything.
pub open spec fn answers(request: FsRequestView, reply: FsReplyView) -> bool {
    match (request, reply) {
        (_, FsReplyView::Failed(_)) => true,
        (FsRequestView::Exists(_), FsReplyView::Exists(_)) => true,
        (FsRequestView::ReadText(_), FsReplyView::Text(_)) => true,
        (FsRequestView::ReadBytes(_), FsReplyView::Bytes(_)) => true,
        (FsRequestView::Metadata(_), FsReplyView::Metadata(_)) => true,
        (FsRequestView::CreateParentDirs(_), FsReplyView::Done) => true,
        (FsRequestView::WriteText(_, _), FsReplyView::Done) => true,
        (FsRequestView::WriteBytes(_, _), FsReplyView::Done) => true,
        (FsRequestView::Copy(_, _), FsReplyView::Done) => true,
        (FsRequestView::Rename(_, _), FsReplyView::Done) => true,
        (FsRequestView::Remove(_), FsReplyView::Done) => true,
        _ => false,
    }
}

/// The error for a primitive that failed with `reason`: reads report a read
/// error, writes and directory creation a write error, the rest a failed
/// operation.
pub open spec fn failure(request: FsRequestView, reason: Seq<char>) -> FileErrorView {
    match request {
        FsRequestView::ReadText(p) => FileErrorView::ReadError(p, reason),
        FsRequestView::ReadBytes(p) => FileErrorView::ReadError(p, reason),
        FsRequestView::CreateParentDirs(p) => FileErrorView::WriteError(p, reason),
        FsRequestView::WriteText(p, _) => FileErrorView::WriteError(p, reason),
        FsRequestView::WriteBytes(p, _) => FileErrorView::WriteError(p, reason),
        _ => FileErrorView::OperationFailed(reason),
    }
}

/// An operation under way: what was asked for and how far its script has
/// been answered.
#[derive(Debug, Clone, PartialEq, Eq)]
pub struct FileTask {
    op: FileOp,
    cursor: usize,
}

/// The view of [`FileTask`] in specifications.
pub struct FileTaskView {
    pub op: FileOpView,
    pub cursor: nat,
}

impl View for FileTask {
    type V = FileTaskView;

    closed spec fn view(&self) -> FileTaskView {
        FileTaskView { op: self.op@, cursor: self.cursor as nat }
    }
}

/// Where an operation stands: it either needs a primitive performed, or it
/// has its result.
#[derive(Debug, PartialEq, Eq)]
pub enum Step {
    Ask(FsRequest, FileTask),
    Finished(Result<FileOutput, FileError>),
}

/// The view of [`Step`] in specifications.
pub enum StepView {
    Ask(FsRequestView, FileTaskView),
    Finished(Result<FileOutputView, FileErrorView>),
}

/// The view of a finished operation's result.
pub open spec fn result_view(r: Result<FileOutput, FileError>) -> Result<
    FileOutputView,
    FileErrorView,
> {
    match r {
        Ok(o) => Ok(o@),
        Err(e) => Err(e@),
    }
}

impl View for Step {
    type V = StepView;

    open spec fn view(&self) -> StepView {
        match self {
            Step::Ask(request, task) => StepView::Ask(request@, task@),
            Step::Finished(r) => StepView::Finished(result_view(*r)),
        }
    }
}

impl FileTaskView {
    /// The first step of `op`: its first request is pending.
    pub open spec fn start(op: FileOpView) -> StepView {
        StepView::Ask(op.script()[0], FileTaskView { op, cursor: 0 })
    }

    /// The step that follows when the pending request is answered with
    /// `reply`.
    ///
    /// A reply of the wrong kind ends the operation with its result for
    /// a host that left the script, a failure with its result for a failed
    /// primitive: both are errors but for the question whether a path
    /// exists, which is then answered with no. A probe that finds nothing,
    /// with more of the script to come, ends the operation with its
    /// result for an absent path. Otherwise the next request of the script
    /// is asked, or, after the last one, the operation concludes.
    pub open spec fn advance(self, reply: FsReplyView) -> StepView {
        let script = self.op.script();
        if self.cursor >= script.len() {
            StepView::Finished(self.op.off_script())
        } else {
            let request = script[self.cursor as int];
            let last = self.cursor + 1 == script.len();
            if !answers(request, reply) {
                StepView::Finished(self.op.off_script())
            } else if let FsReplyView::Failed(reason) = reply {
                StepView::Finished(self.op.failed(request, reason))
            } else if reply == FsReplyView::Exists(false) && !last {
                StepView::Finished(self.op.absent(request.subject()))
            } else if last {
                StepView::Finished(self.op.conclude(reply))
            } else {
                StepView::Ask(
                    script[self.cursor + 1 as int],
                    FileTaskView { op: self.op, cursor: self.cursor + 1 },
                )
            }
        }
    }
}

/// Every operation that probes for its path does so first, and the probe
/// changes nothing. When the probe finds nothing the operation is over
/// at once, with its result for an absent path, so that nothing that
/// could change the file system is ever asked for. For a copy and a move
/// that result is `NotFound` with the source.
pub proof fn lemma_probe_comes_first(op: FileOpView)
    ensures
        op.script().len() >= 1,
        forall|k: int|
            1 <= k < op.script().len() ==> !(#[trigger] op.script()[k] is Exists),
        op.script()[0] matches FsRequestView::Exists(path) ==> {
            &&& !op.script()[0].mutates()
            &&& FileTaskView::start(op) == StepView::Ask(
                FsRequestView::Exists(path),
                FileTaskView { op, cursor: 0 },
            )
            &&& op.script().len() > 1 ==> (FileTaskView { op, cursor: 0 }).advance(
                FsReplyView::Exists(false),
            ) == StepView::Finished(op.absent(path))
        },
        op matches FileOpView::Copy(source, _) ==> op.script()[0] == FsRequestView::Exists(source)
            && op.absent(source) == Err::<FileOutputView, FileErrorView>(
            FileErrorView::NotFound(source),
        ),
        op matches FileOpView::Move(source, _) ==> op.script()[0] == FsRequestView::Exists(source)
            && op.absent(source) == Err::<FileOutputView, FileErrorView>(
            FileErrorView::NotFound(source),
        ),
{
}

/// To ask whether a path exists never fails: whatever the host replies,
/// the operation is over with a flag, which is set exactly when the host
/// said that the path exists.
pub proof fn lemma_exists_has_no_error(path: Seq<char>, reply: FsReplyView)
    ensures
        FileTaskView::start(FileOpView::Exists(path)) == StepView::Ask(
            FsRequestView::Exists(path),
            FileTaskView { op: FileOpView::Exists(path), cursor: 0 },
        ),
        (FileTaskView { op: FileOpView::Exists(path), cursor: 0 }).advance(reply)
            == StepView::Finished(
            Ok(FileOutputView::Flag(reply == FsReplyView::Exists(true))),
        ),
{
}

fn protocol_failure() -> (e: FileError)
    ensures
        e@ == protocol_error(),
{
    FileError::OperationFailed(String::from_str("unexpected reply"))
}

impl FsRequest {
    /// Whether `reply` is a kind of answer that this request can get.
    pub fn accepts(&self, reply: &FsReply) -> (b: bool)
        ensures
            b == answers(self@, reply@),
    {
        match (self, reply) {
            (_, FsReply::Failed(_)) => true,
            (FsRequest::Exists(_), FsReply::Exists(_)) => true,
            (FsRequest::ReadText(_), FsReply::Text(_)) => true,
            (FsRequest::ReadBytes(_), FsReply::Bytes(_)) => true,
            (FsRequest::Metadata(_), FsReply::Metadata(_)) => true,
            (FsRequest::CreateParentDirs(_), FsReply::Done) => true,
            (FsRequest::WriteText(_, _), FsReply::Done) => true,
            (FsRequest::WriteBytes(_, _), FsReply::Done) => true,
            (FsRequest::Copy(_, _), FsReply::Done) => true,
            (FsRequest::Rename(_, _), FsReply::Done) => true,
            (FsRequest::Remove(_), FsReply::Done) => true,
            _ => false,
        }
    }

    /// The path the request is about; the source, where there are two.
    fn into_subject(self) -> (p: String)
        ensures
            p@ == self@.subject(),
    {
        match self {
            FsRequest::Exists(p) => p,
            FsRequest::ReadText(p) => p,
            FsRequest::ReadBytes(p) => p,
            FsRequest::CreateParentDirs(p) => p,
            FsRequest::WriteText(p, _) => p,
            FsRequest::WriteBytes(p, _) => p,
            FsRequest::Copy(s, _) => s,
            FsRequest::Rename(s, _) => s,
            FsRequest::Remove(p) => p,
            FsRequest::Metadata(p) => p,
        }
    }

    /// The error for this request having failed with `reason`.
    fn into_failure(self, reason: String) -> (e: FileError)
        ensures
            e@ == failure(self@, reason@),
    {
        match self {
            FsRequest::ReadText(p) => FileError::ReadError(p, reason),
            FsRequest::ReadBytes(p) => FileError::ReadError(p, reason),
            FsRequest::CreateParentDirs(p) => FileError::WriteError(p, reason),
            FsRequest::WriteText(p, _) => FileError::WriteError(p, reason),
            FsRequest::WriteBytes(p, _) => FileError::WriteError(p, reason),
            _ => FileError::OperationFailed(reason),
        }
    }
}

/// The checksum of `data` under the algorithm called `name`: its digest
/// in lower-case hexadecimal. A name other than `md5`, `sha1`, `sha256`
/// and `sha512` is refused with the message `Unsupported algorithm: `
/// and the name.
pub fn checksum_of_bytes(name: &str, data: &[u8]) -> (r: Result<String, FileError>)
    ensures
        match r {
            Ok(text) => checksum_outcome(name@, data@) == Ok::<FileOutputView, FileErrorView>(
                FileOutputView::Text(text@),
            ),
            Err(e) => checksum_outcome(name@, data@) == Err::<FileOutputView, FileErrorView>(e@),
        },
        r is Ok <==> Algorithm::named(name@) is Some,
        r matches Err(e) ==> e@.message() == "Unsupported algorithm: "@ + name@,
        r matches Ok(text) ==> {
            &&& text@.len() == 2 * Algorithm::named(name@).unwrap().digest_len()
            &&& forall|i: int| 0 <= i < text@.len() ==> is_lower_hex(#[trigger] text@[i])
        },
{
    match Algorithm::from_name(name) {
        Some(algorithm) => {
            let digest = algorithm.digest(data);
            proof {
                lemma_checksum_shape(algorithm, data@);
            }
            Ok(to_hex(digest.as_slice()))
        },
        None => Err(FileError::UnsupportedAlgorithm(String::from_str(name))),
    }
}

impl FileOp {
    /// The number of primitives in the operation's script.
    pub fn script_len(&self) -> (n: usize)
        ensures
            n == self@.script().len(),
    {
        match self {
            FileOp::Read(_) => 2,
            FileOp::Write(_, _) => 2,
            FileOp::AtomicWrite(_, _, _) => 3,
            FileOp::Load(_) => 1,
            FileOp::Store(_, _) => 1,
            FileOp::Copy(_, _) => 3,
            FileOp::Move(_, _) => 3,
            FileOp::Delete(_) => 2,
            FileOp::Exists(_) => 1,
            FileOp::Size(_) => 2,
            FileOp::Stats(_) => 2,
            FileOp::Checksum(_, _) => 2,
        }
    }

    /// The primitive at position `k` of the script.
    pub fn request_at(&self, k: usize) -> (request: FsRequest)
        requires
            k < self@.script().len(),
        ensures
            request@ == self@.script()[k as int],
    {
        match self {
            FileOp::Read(p) => {
                if k == 0 {
                    FsRequest::Exists(p.clone())
                } else {
                    FsRequest::ReadText(p.clone())
                }
            },
            FileOp::Write(p, c) => {
                if k == 0 {
                    FsRequest::CreateParentDirs(p.clone())
                } else {
                    FsRequest::WriteText(p.clone(), c.clone())
                }
            },
            FileOp::AtomicWrite(p, t, c) => {
                if k == 0 {
                    FsRequest::CreateParentDirs(t.clone())
                } else if k == 1 {
                    FsRequest::WriteText(t.clone(), c.clone())
                } else {
                    FsRequest::Rename(t.clone(), p.clone())
                }
            },
            FileOp::Load(p) => FsRequest::ReadBytes(p.clone()),
            FileOp::Store(p, b) => FsRequest::WriteBytes(p.clone(), b.clone()),
            FileOp::Copy(s, d) => {
                if k == 0 {
                    FsRequest::Exists(s.clone())
                } else if k == 1 {
                    FsRequest::CreateParentDirs(d.clone())
                } else {
                    FsRequest::Copy(s.clone(), d.clone())
                }
            },
            FileOp::Move(s, d) => {
                if k == 0 {
                    FsRequest::Exists(s.clone())
                } else if k == 1 {
                    FsRequest::CreateParentDirs(d.clone())
                } else {
                    FsRequest::Rename(s.clone(), d.clone())
                }
            },
            FileOp::Delete(p) => {
                if k == 0 {
                    FsRequest::Exists(p.clone())
                } else {
                    FsRequest::Remove(p.clone())
                }
            },
            FileOp::Exists(p) => FsRequest::Exists(p.clone()),
            FileOp::Size(p) => {
                if k == 0 {
                    FsRequest::Exists(p.clone())
                } else {
                    FsRequest::Metadata(p.clone())
                }
            },
            FileOp::Stats(p) => {
                if k == 0 {
                    FsRequest::Exists(p.clone())
                } else {
                    FsRequest::Metadata(p.clone())
                }
            },
            FileOp::Checksum(p, _) => {
                if k == 0 {
                    FsRequest::Exists(p.clone())
                } else {
                    FsRequest::ReadBytes(p.clone())
                }
            },
        }
    }

    /// The result for the primitive `request` having failed with `reason`.
    fn into_failed(self, request: FsRequest, reason: String) -> (r: Result<FileOutput, FileError>)
        ensures
            result_view(r) == self@.failed(request@, reason@),
    {
        match self {
            FileOp::Exists(_) => Ok(FileOutput::Flag(false)),
            _ => Err(request.into_failure(reason)),
        }
    }

    /// The result for a reply that does not answer what was asked.
    fn into_off_script(self) -> (r: Result<FileOutput, FileError>)
        ensures
            result_view(r) == self@.off_script(),
    {
        match self {
            FileOp::Exists(_) => Ok(FileOutput::Flag(false)),
            _ => Err(protocol_failure()),
        }
    }

    /// The result for a probe that found nothing at `path`.
    fn into_absent(self, path: String) -> (r: Result<FileOutput, FileError>)
        ensures
            result_view(r) == self@.absent(path@),
    {
        match self {
            FileOp::Delete(_) => Ok(FileOutput::Flag(false)),
            _ => Err(FileError::NotFound(path)),
        }
    }

    /// The result once the last primitive was answered with `reply`.
    fn into_conclusion(self, reply: FsReply) -> (r: Result<FileOutput, FileError>)
        ensures
            result_view(r) == self@.conclude(reply@),
    {
        match (self, reply) {
            (FileOp::Read(_), FsReply::Text(s)) => Ok(FileOutput::Text(s)),
            (FileOp::Write(_, _), FsReply::Done) => Ok(FileOutput::Done),
            (FileOp::AtomicWrite(_, _, _), FsReply::Done) => Ok(FileOutput::Done),
            (FileOp::Load(_), FsReply::Bytes(b)) => Ok(FileOutput::Bytes(b)),
            (FileOp::Store(_, _), FsReply::Done) => Ok(FileOutput::Done),
            (FileOp::Copy(_, _), FsReply::Done) => Ok(FileOutput::Done),
            (FileOp::Move(_, _), FsReply::Done) => Ok(FileOutput::Done),
            (FileOp::Delete(_), FsReply::Done) => Ok(FileOutput::Flag(true)),
            (FileOp::Exists(_), FsReply::Exists(b)) => Ok(FileOutput::Flag(b)),
            (FileOp::Size(_), FsReply::Metadata(m)) => Ok(FileOutput::Size(m.size)),
            (FileOp::Stats(_), FsReply::Metadata(m)) => Ok(FileOutput::Stats(m.to_stats())),
            (FileOp::Checksum(_, name), FsReply::Bytes(b)) => {
                match checksum_of_bytes(name.as_str(), b.as_slice()) {
                    Ok(text) => Ok(FileOutput::Text(text)),
                    Err(e) => Err(e),
                }
            },
            _ => Err(protocol_failure()),
        }
    }
}

impl FileTask {
    /// Begins `op`: its first request is pending.
    pub fn start(op: FileOp) -> (step: Step)
        ensures
            step@ == FileTaskView::start(op@),
    {
        let request = op.request_at(0);
        Step::Ask(request, FileTask { op, cursor: 0 })
    }

    /// Takes the host's `reply` to the pending request and decides what
    /// follows.
    pub fn advance(self, reply: FsReply) -> (step: Step)
        ensures
            step@ == self@.advance(reply@),
    {
        let len: usize = self.op.script_len();
        if self.cursor >= len {
            return Step::Finished(self.op.into_off_script());
        }
        let request = self.op.request_at(self.cursor);
        let last: bool = self.cursor + 1 == len;
        if !request.accepts(&reply) {
            return Step::Finished(self.op.into_off_script());
        }
        match reply {
            FsReply::Failed(reason) => Step::Finished(self.op.into_failed(request, reason)),
            FsReply::Exists(false) => {
                if last {
                    Step::Finished(self.op.into_conclusion(FsReply::Exists(false)))
                } else {
                    Step::Finished(self.op.into_absent(request.into_subject()))
                }
            },
            reply => {
                if last {
                    Step::Finished(self.op.into_conclusion(reply))
                } else {
                    let next = self.op.request_at(self.cursor + 1);
                    Step::Ask(next, FileTask { op: self.op, cursor: self.cursor + 1 })
                }
            },
        }
    }
}

} // verus!
