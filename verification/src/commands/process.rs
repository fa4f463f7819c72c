//! The process command: reads a JSON file and prints it back.
//!
//! The command is a small machine. It hands the host what to log and what
//! to print, and asks it for one primitive of the file system at a time;
//! the host answers and the machine decides what follows.

use crate::utils::file_handler::{FileError, FileErrorView};
use crate::utils::file_task::{answers, failure, protocol_error, FsReply, FsReplyView, FsRequest, FsRequestView};
use crate::utils::json::{
    invalid_json, json_key_count, json_object_len, json_parse, json_parsed, reformat,
    reformatted, render_value, rendering,
};
use crate::utils::logger::LogLevel;
use crate::utils::text::{decimal, push_decimal};
use vstd::prelude::*;
use vstd::string::StringExecFns;

verus! {

/// The exit status for an input file that does not exist.
pub const EXIT_NOT_FOUND: i32 = 1;

/// Something for the host to put out.
#[derive(Debug, Clone, PartialEq, Eq)]
pub enum Effect {
    /// A message for the log, at the given severity.
    Log(LogLevel, String),
    /// A line for the standard output.
    Print(String),
}

/// The view of [`Effect`] in specifications.
pub enum EffectView {
    Log(LogLevel, Seq<char>),
    Print(Seq<char>),
}

impl View for Effect {
    type V = EffectView;

    open spec fn view(&self) -> EffectView {
        match self {
            Effect::Log(level, text) => EffectView::Log(*level, text@),
            Effect::Print(text) => EffectView::Print(text@),
        }
    }
}

/// The views of a list of effects.
pub open spec fn effect_views(effects: Seq<Effect>) -> Seq<EffectView> {
    Seq::new(effects.len(), |i: int| effects[i]@)
}

/// How far the command has come.
#[derive(Debug, Clone, Copy, PartialEq, Eq, Structural)]
pub enum Stage {
    /// Waiting to hear whether the file exists.
    Probing,
    /// Waiting for the file's content.
    Reading,
    /// Waiting for the file's metadata.
    Sizing,
}

/// The process command: the file to read, whether to print it pretty,
/// and whether to report statistics.
#[derive(Debug, Clone, PartialEq, Eq)]
pub struct ProcessCommand {
    pub file: String,
    pub pretty: bool,
    pub stats: bool,
}

/// The view of [`ProcessCommand`] in specifications.
pub struct ProcessCommandView {
    pub file: Seq<char>,
    pub pretty: bool,
    pub stats: bool,
}

impl View for ProcessCommand {
    type V = ProcessCommandView;

    open spec fn view(&self) -> ProcessCommandView {
        ProcessCommandView { file: self.file@, pretty: self.pretty, stats: self.stats }
    }
}

/// The command under way.
#[derive(Debug, Clone, PartialEq, Eq)]
pub struct ProcessTask {
    command: ProcessCommand,
    stage: Stage,
}

/// The view of [`ProcessTask`] in specifications.
pub struct ProcessTaskView {
    pub command: ProcessCommandView,
    pub stage: Stage,
}

impl View for ProcessTask {
    type V = ProcessTaskView;

    closed spec fn view(&self) -> ProcessTaskView {
        ProcessTaskView { command: self.command@, stage: self.stage }
    }
}

/// What follows the effects of a step.
#[derive(Debug, Clone, PartialEq, Eq)]
pub enum ProcessNext {
    /// The host performs the request and hands the reply to the task.
    Ask(FsRequest, ProcessTask),
    /// The process ends with the given status.
    Exit(i32),
    /// The command fails with the error.
    Fail(FileError),
    /// The command is done.
    Done,
}

/// The view of [`ProcessNext`] in specifications.
pub enum ProcessNextView {
    Ask(FsRequestView, ProcessTaskView),
    Exit(i32),
    Fail(FileErrorView),
    Done,
}

impl View for ProcessNext {
    type V = ProcessNextView;

    open spec fn view(&self) -> ProcessNextView {
        match self {
            ProcessNext::Ask(request, task) => ProcessNextView::Ask(request@, task@),
            ProcessNext::Exit(status) => ProcessNextView::Exit(*status),
            ProcessNext::Fail(e) => ProcessNextView::Fail(e@),
            ProcessNext::Done => ProcessNextView::Done,
        }
    }
}

/// One step of the command: what to put out now, and what follows.
#[derive(Debug, Clone, PartialEq, Eq)]
pub struct ProcessStep {
    pub effects: Vec<Effect>,
    pub next: ProcessNext,
}

/// The view of [`ProcessStep`] in specifications.
pub struct ProcessStepView {
    pub effects: Seq<EffectView>,
    pub next: ProcessNextView,
}

impl View for ProcessStep {
    type V = ProcessStepView;

    open spec fn view(&self) -> ProcessStepView {
        ProcessStepView { effects: effect_views(self.effects@), next: self.next@ }
    }
}

/// The message that announces the file.
pub open spec fn announcement_text(file: Seq<char>) -> Seq<char> {
    "Processing file: "@ + file
}

/// The message for a file that does not exist.
pub open spec fn not_found_text(file: Seq<char>) -> Seq<char> {
    "File not found: "@ + file
}

/// The message for a document that is an object of `count` keys.
pub open spec fn keys_text(count: nat) -> Seq<char> {
    "Successfully parsed JSON with "@ + decimal(count) + " keys"@
}

/// The message for a file of `bytes` bytes.
pub open spec fn size_text(bytes: nat) -> Seq<char> {
    "File size: "@ + decimal(bytes) + " bytes"@
}

/// A step that ends the command with `e`, after `effects`.
pub open spec fn failing(effects: Seq<EffectView>, e: FileErrorView) -> ProcessStepView {
    ProcessStepView { effects, next: ProcessNextView::Fail(e) }
}

impl ProcessCommandView {
    /// The first step: the file is announced and probed for.
    pub open spec fn start(self) -> ProcessStepView {
        ProcessStepView {
            effects: seq![EffectView::Log(LogLevel::Info, announcement_text(self.file))],
            next: ProcessNextView::Ask(
                FsRequestView::Exists(self.file),
                ProcessTaskView { command: self, stage: Stage::Probing },
            ),
        }
    }

    /// The step for content that `serde_json` refused with `message`:
    /// the refusal is logged and fails the command.
    pub open spec fn refused(message: Seq<char>) -> ProcessStepView {
        failing(
            seq![EffectView::Log(LogLevel::Error, FileErrorView::InvalidJson(message).message())],
            FileErrorView::InvalidJson(message),
        )
    }

    /// The step for a document of `key_count` keys, where it is an object,
    /// whose written form is `text`: the number of keys is logged, if
    /// there is one, and the text is printed. With statistics the file's
    /// metadata is asked for next; without, the command is done.
    pub open spec fn shown(self, key_count: Option<nat>, text: Seq<char>) -> ProcessStepView {
        ProcessStepView {
            effects: match key_count {
                Some(count) => seq![
                    EffectView::Log(LogLevel::Info, keys_text(count)),
                    EffectView::Print(text),
                ],
                None => seq![EffectView::Print(text)],
            },
            next: if self.stats {
                ProcessNextView::Ask(
                    FsRequestView::Metadata(self.file),
                    ProcessTaskView { command: self, stage: Stage::Sizing },
                )
            } else {
                ProcessNextView::Done
            },
        }
    }

    /// The step for a file of the given content. Content that is no JSON
    /// is logged with the parser's message and fails the command. A
    /// document is shown, pretty or compact as the command says.
    pub open spec fn printed(self, content: Seq<char>) -> ProcessStepView {
        match json_parsed(content) {
            Err(message) => Self::refused(message),
            Ok(compact) => self.shown(json_key_count(compact), rendering(compact, self.pretty)),
        }
    }
}

impl ProcessTaskView {
    /// The request that the task waits on.
    pub open spec fn pending(self) -> FsRequestView {
        match self.stage {
            Stage::Probing => FsRequestView::Exists(self.command.file),
            Stage::Reading => FsRequestView::ReadText(self.command.file),
            Stage::Sizing => FsRequestView::Metadata(self.command.file),
        }
    }

    /// The step that follows when the pending request is answered with
    /// `reply`.
    ///
    /// A reply of the wrong kind or a failed primitive fails the command.
    /// A file that does not exist is logged and ends the process with
    /// [`EXIT_NOT_FOUND`]; one that exists is read. Its content is printed
    /// as [`ProcessCommandView::printed`] says. The metadata, asked for
    /// with statistics, gives the size to log.
    pub open spec fn advance(self, reply: FsReplyView) -> ProcessStepView {
        if !answers(self.pending(), reply) {
            failing(Seq::empty(), protocol_error())
        } else {
            match reply {
                FsReplyView::Failed(m) => failing(Seq::empty(), failure(self.pending(), m)),
                FsReplyView::Exists(false) => ProcessStepView {
                    effects: seq![
                        EffectView::Log(LogLevel::Error, not_found_text(self.command.file)),
                    ],
                    next: ProcessNextView::Exit(EXIT_NOT_FOUND),
                },
                FsReplyView::Exists(true) => ProcessStepView {
                    effects: Seq::empty(),
                    next: ProcessNextView::Ask(
                        FsRequestView::ReadText(self.command.file),
                        ProcessTaskView { command: self.command, stage: Stage::Reading },
                    ),
                },
                FsReplyView::Text(content) => self.command.printed(content),
                FsReplyView::Metadata(m) => ProcessStepView {
                    effects: seq![
                        EffectView::Log(LogLevel::Info, size_text(m.size as nat)),
                        EffectView::Log(LogLevel::Info, "Processing complete"@),
                    ],
                    next: ProcessNextView::Done,
                },
                _ => failing(Seq::empty(), protocol_error()),
            }
        }
    }
}

fn fail_with(e: FileError) -> (step: ProcessStep)
    ensures
        step@ == failing(Seq::empty(), e@),
{
    let step = ProcessStep { effects: Vec::new(), next: ProcessNext::Fail(e) };
    assert(step@.effects =~= Seq::empty());
    step
}

impl ProcessCommand {
    pub fn new(file: String, pretty: bool, stats: bool) -> (command: Self)
        ensures
            command.file == file,
            command.pretty == pretty,
            command.stats == stats,
    {
        Self { file, pretty, stats }
    }

    /// The level the command logs at: everything where statistics are
    /// asked for, from `Info` up otherwise.
    pub fn log_level(&self) -> (level: LogLevel)
        ensures
            level == if self.stats {
                LogLevel::Debug
            } else {
                LogLevel::Info
            },
    {
        if self.stats {
            LogLevel::Debug
        } else {
            LogLevel::Info
        }
    }

    /// The message that announces the file.
    pub fn announcement(&self) -> (text: String)
        ensures
            text@ == announcement_text(self.file@),
    {
        let mut text = String::from_str("Processing file: ");
        text.append(self.file.as_str());
        text
    }

    /// The message for a file that does not exist.
    pub fn not_found_message(&self) -> (text: String)
        ensures
            text@ == not_found_text(self.file@),
    {
        let mut text = String::from_str("File not found: ");
        text.append(self.file.as_str());
        text
    }

    /// The message for a document that is an object of `count` keys.
    pub fn keys_message(count: usize) -> (text: String)
        ensures
            text@ == keys_text(count as nat),
    {
        let mut text = String::from_str("Successfully parsed JSON with ");
        push_decimal(&mut text, count as u128);
        text.append(" keys");
        text
    }

    /// The message for a file of `bytes` bytes.
    pub fn size_message(bytes: u64) -> (text: String)
        ensures
            text@ == size_text(bytes as nat),
    {
        let mut text = String::from_str("File size: ");
        push_decimal(&mut text, bytes as u128);
        text.append(" bytes");
        text
    }

    /// What the command prints for a file of the given content: the
    /// document, pretty or compact as the command says. Content that is no
    /// JSON is refused as `InvalidJson` with the parser's message.
    pub fn render(&self, content: &str) -> (r: Result<String, FileError>)
        ensures
            match r {
                Ok(text) => reformatted(content@, self.pretty) == Ok::<Seq<char>, FileErrorView>(
                    text@,
                ),
                Err(e) => reformatted(content@, self.pretty) == Err::<Seq<char>, FileErrorView>(
                    e@,
                ),
            },
    {
        reformat(content, self.pretty)
    }

    /// Begins the command: the file is announced and probed for.
    pub fn start(self) -> (step: ProcessStep)
        ensures
            step@ == self@.start(),
    {
        let mut effects: Vec<Effect> = Vec::new();
        effects.push(Effect::Log(LogLevel::Info, self.announcement()));
        let request = FsRequest::Exists(self.file.clone());
        let step = ProcessStep {
            effects,
            next: ProcessNext::Ask(request, ProcessTask { command: self, stage: Stage::Probing }),
        };
        assert(step@.effects =~= self@.start().effects);
        step
    }

    /// The step for content that was refused with `message`: the refusal
    /// is logged and fails the command.
    pub fn refused_step(message: String) -> (step: ProcessStep)
        ensures
            step@ == ProcessCommandView::refused(message@),
    {
        let e = invalid_json(message);
        let mut effects: Vec<Effect> = Vec::new();
        effects.push(Effect::Log(LogLevel::Error, e.message()));
        let step = ProcessStep { effects, next: ProcessNext::Fail(e) };
        assert(step@.effects =~= ProcessCommandView::refused(message@).effects);
        step
    }

    /// The step for a document of `key_count` keys, where it is an object,
    /// whose written form is `text`: the number of keys is logged, if
    /// there is one, and the text is printed. With statistics the file's
    /// metadata is asked for next; without, the command is done.
    pub fn shown_step(self, key_count: Option<usize>, text: String) -> (step: ProcessStep)
        ensures
            step@ == self@.shown(
                match key_count {
                    Some(count) => Some(count as nat),
                    None => None,
                },
                text@,
            ),
    {
        let ghost expected = self@.shown(
            match key_count {
                Some(count) => Some(count as nat),
                None => None,
            },
            text@,
        );
        let mut effects: Vec<Effect> = Vec::new();
        match key_count {
            Some(count) => {
                effects.push(Effect::Log(LogLevel::Info, Self::keys_message(count)));
            },
            None => {},
        }
        effects.push(Effect::Print(text));
        let next = if self.stats {
            let request = FsRequest::Metadata(self.file.clone());
            ProcessNext::Ask(request, ProcessTask { command: self, stage: Stage::Sizing })
        } else {
            ProcessNext::Done
        };
        let step = ProcessStep { effects, next };
        assert(step@.effects =~= expected.effects);
        step
    }

    /// The step for a file of the given content: the content is parsed;
    /// what is no JSON is refused, a document is counted, written and
    /// shown.
    pub fn print(self, content: &str) -> (step: ProcessStep)
        ensures
            step@ == self@.printed(content@),
    {
        match json_parse(content) {
            Err(message) => Self::refused_step(message),
            Ok(value) => {
                let key_count = json_object_len(&value);
                let text = render_value(&value, self.pretty);
                self.shown_step(key_count, text)
            },
        }
    }
}

impl ProcessTask {
    /// The request that the task waits on.
    pub fn pending(&self) -> (request: FsRequest)
        ensures
            request@ == self@.pending(),
    {
        match self.stage {
            Stage::Probing => FsRequest::Exists(self.command.file.clone()),
            Stage::Reading => FsRequest::ReadText(self.command.file.clone()),
            Stage::Sizing => FsRequest::Metadata(self.command.file.clone()),
        }
    }

    /// Takes the host's `reply` to the pending request and decides what
    /// follows.
    pub fn advance(self, reply: FsReply) -> (step: ProcessStep)
        ensures
            step@ == self@.advance(reply@),
    {
        let request = self.pending();
        if !request.accepts(&reply) {
            let step = fail_with(FileError::OperationFailed(String::from_str("unexpected reply")));
            return step;
        }
        match reply {
            FsReply::Failed(m) => {
                let e = match request {
                    FsRequest::ReadText(p) => FileError::ReadError(p, m),
                    _ => FileError::OperationFailed(m),
                };
                let step = fail_with(e);
                step
            },
            FsReply::Exists(false) => {
                let mut effects: Vec<Effect> = Vec::new();
                effects.push(Effect::Log(LogLevel::Error, self.command.not_found_message()));
                let step = ProcessStep { effects, next: ProcessNext::Exit(EXIT_NOT_FOUND) };
                assert(step@.effects =~= self@.advance(reply@).effects);
                step
            },
            FsReply::Exists(true) => {
                let next_request = FsRequest::ReadText(self.command.file.clone());
                let step = ProcessStep {
                    effects: Vec::new(),
                    next: ProcessNext::Ask(
                        next_request,
                        ProcessTask { command: self.command, stage: Stage::Reading },
                    ),
                };
                assert(step@.effects =~= Seq::empty());
                step
            },
            FsReply::Text(content) => self.command.print(content.as_str()),
            FsReply::Metadata(m) => {
                let mut effects: Vec<Effect> = Vec::new();
                effects.push(Effect::Log(LogLevel::Info, ProcessCommand::size_message(m.size)));
                effects.push(Effect::Log(LogLevel::Info, String::from_str("Processing complete")));
                let step = ProcessStep { effects, next: ProcessNext::Done };
                assert(step@.effects =~= self@.advance(reply@).effects);
                step
            },
            _ => {
                let step = fail_with(
                    FileError::OperationFailed(String::from_str("unexpected reply")),
                );
                step
            },
        }
    }
}

} // verus!
