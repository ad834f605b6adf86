//! Running an external program.
//!
//! The run is a sequence of actions that the caller carries out, each
//! answered by an event: the files that receive the child's streams are
//! opened, the child is started, its output is read if it comes through a
//! pipe, the child is waited for, the files are closed, and what was read is
//! printed.  The order is fixed here, and so is what every failure on the way
//! comes to.

use vstd::prelude::*;
use vstd::string::StringExecFns;
use crate::command::{CommandResult, CommandResultView, FailureKind, IoFailure};
use crate::redirect::{
    OpenRequest, OpenRequestView, RedirectionSpec, Redirections, Stream, WriteFailure,
};
use crate::sink::{delivery, SinkActionView};
use crate::text::copy_strings;

verus! {

/// Where a stream of the child is connected.
#[derive(Debug, Clone, Copy, PartialEq, Eq, Structural)]
pub enum Wiring {
    /// The shell's own stream.
    Inherit,
    /// A pipe that the shell reads.
    Pipe,
    /// The file that was opened for the stream.
    File,
}

/// How a program is started.
#[derive(Debug, PartialEq, Eq)]
pub struct SpawnRequest {
    /// The path of the program.
    pub program: String,
    /// The name that the program is given as its own.
    pub arg0: String,
    /// The arguments after the name.
    pub args: Vec<String>,
    pub stdout: Wiring,
    pub stderr: Wiring,
}

/// A request to start a program, as a value.
pub struct SpawnRequestView {
    pub program: Seq<char>,
    pub arg0: Seq<char>,
    pub args: Seq<Seq<char>>,
    pub stdout: Wiring,
    pub stderr: Wiring,
}

impl View for SpawnRequest {
    type V = SpawnRequestView;

    open spec fn view(&self) -> SpawnRequestView {
        SpawnRequestView {
            program: self.program@,
            arg0: self.arg0@,
            args: self.args.deep_view(),
            stdout: self.stdout,
            stderr: self.stderr,
        }
    }
}

/// What the caller has to do next.
#[derive(Debug, PartialEq, Eq)]
pub enum ExecAction {
    /// Open the file that receives the child's standard output, and keep
    /// it open.
    OpenStdout(OpenRequest),
    /// Open the file that receives the child's standard error, and keep it
    /// open.
    OpenStderr(OpenRequest),
    /// Start the program.
    Spawn(SpawnRequest),
    /// Read the pipe from the child's standard output to its end.
    ReadOutput,
    /// Wait for the child to exit.
    Wait,
    /// Close the files that were opened for the child.
    CloseFiles,
    /// Write this text to standard output, and flush.
    Print(String),
    /// Write this text to standard error.
    Warn(String),
    /// Nothing: the run is over, with this result.
    Finish(CommandResult),
}

/// An action as a value.
pub enum ExecActionView {
    OpenStdout(OpenRequestView),
    OpenStderr(OpenRequestView),
    Spawn(SpawnRequestView),
    ReadOutput,
    Wait,
    CloseFiles,
    Print(Seq<char>),
    Warn(Seq<char>),
    Finish(CommandResultView),
}

impl View for ExecAction {
    type V = ExecActionView;

    open spec fn view(&self) -> ExecActionView {
        match self {
            ExecAction::OpenStdout(request) => ExecActionView::OpenStdout(request@),
            ExecAction::OpenStderr(request) => ExecActionView::OpenStderr(request@),
            ExecAction::Spawn(request) => ExecActionView::Spawn(request@),
            ExecAction::ReadOutput => ExecActionView::ReadOutput,
            ExecAction::Wait => ExecActionView::Wait,
            ExecAction::CloseFiles => ExecActionView::CloseFiles,
            ExecAction::Print(text) => ExecActionView::Print(text@),
            ExecAction::Warn(text) => ExecActionView::Warn(text@),
            ExecAction::Finish(result) => ExecActionView::Finish(result@),
        }
    }
}

/// What came of an action.
#[derive(Debug)]
pub enum ExecEvent {
    /// The file is open, and a second handle to it is ready for the child.
    Opened,
    /// The file could not be opened.
    OpenFailed(WriteFailure),
    /// The file is open, but no second handle to it could be had.
    CloneFailed(String),
    /// The child runs.
    Spawned,
    /// The child could not be started.
    SpawnFailed(IoFailure),
    /// What was read from the pipe, and why the reading stopped early, if
    /// it did.
    OutputRead { text: String, error: Option<String> },
    /// The child has exited; `success` tells whether with status zero.
    Exited { success: bool },
    /// Waiting failed.
    WaitFailed(String),
    /// The text was written, but flushing failed.
    PrintFailed(String),
    /// The action was carried out (closing, printing, warning).
    Done,
}

/// The steps of a run.
#[derive(Debug, Clone, Copy, PartialEq, Eq, Structural)]
pub enum Phase {
    /// The file of standard output is to be opened.
    OpeningStdout,
    /// The file of standard error is to be opened.
    OpeningStderr,
    /// The program is to be started.
    Spawning,
    /// The pipe is to be read.
    Reading,
    /// The user is to be warned that the pipe could not be read to its end.
    ReportingRead,
    /// The child is to be waited for.
    Waiting,
    /// The files are to be closed.
    Closing,
    /// What was read is to be printed.
    Printing,
    /// The user is to be warned that standard output could not be flushed.
    ReportingFlush,
    /// The run is over.
    Finished,
}

/// The name of a stream in messages.
pub open spec fn stream_name(stream: Stream) -> Seq<char> {
    match stream {
        Stream::Stdout => "stdout"@,
        Stream::Stderr => "stderr"@,
    }
}

/// The message for a file that could not be opened.
pub open spec fn open_failure(stream: Stream, filename: Seq<char>, reason: Seq<char>) -> Seq<
    char,
> {
    "failed to open "@ + stream_name(stream) + " redirect file '"@ + filename + "': "@ + reason
}

/// The message for a file of which no second handle could be had.
pub open spec fn clone_failure(stream: Stream, reason: Seq<char>) -> Seq<char> {
    "failed to clone "@ + stream_name(stream) + " file handle: "@ + reason
}

/// The message for a program that could not be started.
pub open spec fn spawn_failure(name: Seq<char>, kind: FailureKind, text: Seq<char>) -> Seq<char> {
    match kind {
        FailureKind::NotFound => name + ": command not found (spawn error)"@,
        FailureKind::PermissionDenied => name + ": Permission denied"@,
        FailureKind::Other => "failed to execute command '"@ + name + "': "@ + text,
    }
}

/// The message for a child that could not be waited for.
pub open spec fn wait_failure(name: Seq<char>, reason: Seq<char>) -> Seq<char> {
    "failed to wait for command '"@ + name + "': "@ + reason
}

/// The warning for a pipe that could not be read to its end.
pub open spec fn read_warning(reason: Seq<char>) -> Seq<char> {
    "shell: warning: error reading command stdout pipe: "@ + reason + "\n"@
}

/// The warning for a standard output that could not be flushed.
pub open spec fn flush_warning(reason: Seq<char>) -> Seq<char> {
    "shell: error flushing stdout: "@ + reason + "\n"@
}

/// A run as a value.
pub struct ExecView {
    /// The name that the command was called by.
    pub name: Seq<char>,
    /// The path of the program.
    pub path: Seq<char>,
    pub args: Seq<Seq<char>>,
    pub redirections: RedirectionSpec,
    pub phase: Phase,
    /// What was read from the child's standard output.
    pub captured: Seq<char>,
    /// The warning that is to be written next.
    pub warning: Seq<char>,
    /// The result, once the child has exited or the run has failed.
    pub result: CommandResultView,
}

impl ExecView {
    /// The run before its first action.  A stream that is redirected has its
    /// file opened first, standard output before standard error.
    pub open spec fn start(
        name: Seq<char>,
        path: Seq<char>,
        args: Seq<Seq<char>>,
        redirections: RedirectionSpec,
    ) -> ExecView {
        ExecView {
            name,
            path,
            args,
            redirections,
            phase: if redirections.stdout is Some {
                Phase::OpeningStdout
            } else if redirections.stderr is Some {
                Phase::OpeningStderr
            } else {
                Phase::Spawning
            },
            captured: Seq::empty(),
            warning: Seq::empty(),
            result: CommandResultView::NoOutput,
        }
    }

    /// What every run keeps to: a file is opened for a stream only if the
    /// stream is redirected, and the pipe is read only if there is one.
    pub open spec fn well_formed(self) -> bool {
        &&& self.phase == Phase::OpeningStdout ==> self.redirections.stdout is Some
        &&& self.phase == Phase::OpeningStderr ==> self.redirections.stderr is Some
        &&& (self.phase == Phase::Reading || self.phase == Phase::ReportingRead)
            ==> self.redirections.stdout is None
    }

    /// How the program is started: under the name that the command was
    /// called by, with standard output in its file or in a pipe, and standard
    /// error in its file or where the shell's own goes.
    pub open spec fn spawn_request(self) -> SpawnRequestView {
        SpawnRequestView {
            program: self.path,
            arg0: self.name,
            args: self.args,
            stdout: if self.redirections.stdout is Some {
                Wiring::File
            } else {
                Wiring::Pipe
            },
            stderr: if self.redirections.stderr is Some {
                Wiring::File
            } else {
                Wiring::Inherit
            },
        }
    }

    /// What the caller has to do next.
    pub open spec fn action(self) -> ExecActionView {
        match self.phase {
            Phase::OpeningStdout => ExecActionView::OpenStdout(
                self.redirections.stdout->Some_0.open_request(false),
            ),
            Phase::OpeningStderr => ExecActionView::OpenStderr(
                self.redirections.stderr->Some_0.open_request(false),
            ),
            Phase::Spawning => ExecActionView::Spawn(self.spawn_request()),
            Phase::Reading => ExecActionView::ReadOutput,
            Phase::ReportingRead | Phase::ReportingFlush => ExecActionView::Warn(self.warning),
            Phase::Waiting => ExecActionView::Wait,
            Phase::Closing => ExecActionView::CloseFiles,
            Phase::Printing => ExecActionView::Print(self.captured),
            Phase::Finished => ExecActionView::Finish(self.result),
        }
    }

    /// The run at another step.
    pub open spec fn to(self, phase: Phase) -> ExecView {
        ExecView { phase, ..self }
    }

    /// The run ends with a message of the shell.
    pub open spec fn fail(self, message: Seq<char>) -> ExecView {
        ExecView { phase: Phase::Finished, result: CommandResultView::Failure(message), ..self }
    }

    /// The run after an event.  An event that does not answer the action
    /// changes nothing.
    pub open spec fn advance(self, event: ExecEvent) -> ExecView {
        match (self.phase, event) {
            (Phase::OpeningStdout, ExecEvent::Opened) => self.to(
                if self.redirections.stderr is Some {
                    Phase::OpeningStderr
                } else {
                    Phase::Spawning
                },
            ),
            (Phase::OpeningStdout, ExecEvent::OpenFailed(failure)) => self.fail(
                open_failure(
                    Stream::Stdout,
                    self.redirections.stdout->Some_0.path,
                    failure.text(self.redirections.stdout->Some_0.path),
                ),
            ),
            (Phase::OpeningStdout, ExecEvent::CloneFailed(reason)) => self.fail(
                clone_failure(Stream::Stdout, reason@),
            ),
            (Phase::OpeningStderr, ExecEvent::Opened) => self.to(Phase::Spawning),
            (Phase::OpeningStderr, ExecEvent::OpenFailed(failure)) => self.fail(
                open_failure(
                    Stream::Stderr,
                    self.redirections.stderr->Some_0.path,
                    failure.text(self.redirections.stderr->Some_0.path),
                ),
            ),
            (Phase::OpeningStderr, ExecEvent::CloneFailed(reason)) => self.fail(
                clone_failure(Stream::Stderr, reason@),
            ),
            (Phase::Spawning, ExecEvent::Spawned) => self.to(
                if self.redirections.stdout is None {
                    Phase::Reading
                } else {
                    Phase::Waiting
                },
            ),
            (Phase::Spawning, ExecEvent::SpawnFailed(failure)) => self.fail(
                spawn_failure(self.name, failure.kind, failure.text@),
            ),
            (Phase::Reading, ExecEvent::OutputRead { text, error }) => match error {
                Some(reason) => ExecView {
                    phase: Phase::ReportingRead,
                    captured: text@,
                    warning: read_warning(reason@),
                    ..self
                },
                None => ExecView { phase: Phase::Waiting, captured: text@, ..self },
            },
            (Phase::ReportingRead, ExecEvent::Done) => self.to(Phase::Waiting),
            (Phase::Waiting, ExecEvent::Exited { success }) => ExecView {
                phase: Phase::Closing,
                result: if success {
                    CommandResultView::NoOutput
                } else {
                    CommandResultView::SilentFailure
                },
                ..self
            },
            (Phase::Waiting, ExecEvent::WaitFailed(reason)) => self.fail(
                wait_failure(self.name, reason@),
            ),
            (Phase::Closing, ExecEvent::Done) => self.to(
                if self.captured.len() > 0 {
                    Phase::Printing
                } else {
                    Phase::Finished
                },
            ),
            (Phase::Printing, ExecEvent::Done) => self.to(Phase::Finished),
            (Phase::Printing, ExecEvent::PrintFailed(reason)) => ExecView {
                phase: Phase::ReportingFlush,
                warning: flush_warning(reason@),
                ..self
            },
            (Phase::ReportingFlush, ExecEvent::Done) => self.to(Phase::Finished),
            _ => self,
        }
    }
}

impl ExecView {
    /// The run after these events, one after the other.
    pub open spec fn after(self, events: Seq<ExecEvent>) -> ExecView
        decreases events.len(),
    {
        if events.len() == 0 {
            self
        } else {
            self.after(events.drop_last()).advance(events.last())
        }
    }

    /// Whether the child's standard output comes through a pipe.
    pub open spec fn piped(self) -> bool {
        self.redirections.stdout is None
    }
}

/// A run starts well formed.
pub proof fn lemma_start_well_formed(
    name: Seq<char>,
    path: Seq<char>,
    args: Seq<Seq<char>>,
    redirections: RedirectionSpec,
)
    ensures
        ExecView::start(name, path, args, redirections).well_formed(),
{
}

/// An event leaves a run well formed, and changes neither the command nor
/// its redirections.
pub proof fn lemma_advance_well_formed(run: ExecView, event: ExecEvent)
    requires
        run.well_formed(),
    ensures
        run.advance(event).well_formed(),
        run.advance(event).name == run.name,
        run.advance(event).path == run.path,
        run.advance(event).args == run.args,
        run.advance(event).redirections == run.redirections,
{
}

/// No message that ends a run is empty.
pub proof fn lemma_failures_have_messages(run: ExecView, event: ExecEvent)
    requires
        run.result.has_message(),
    ensures
        run.advance(event).result.has_message(),
{
    reveal_strlit("failed to open ");
    reveal_strlit("failed to clone ");
    reveal_strlit(": command not found (spawn error)");
    reveal_strlit(": Permission denied");
    reveal_strlit("failed to execute command '");
    reveal_strlit("failed to wait for command '");
}

/// The order of a run: each step is entered from the steps before it, and
/// from no other.
///
/// The child is started only when the files of its redirected streams are
/// open.  Where its output comes through a pipe the child is waited for only
/// after the pipe has been read to its end.  The files are closed only after
/// the child has exited.  What was read is printed only after the files are
/// closed, and the result of the child is reported only after that.
pub proof fn lemma_order_of_steps(run: ExecView, event: ExecEvent)
    requires
        run.well_formed(),
    ensures
        ({
            let before = run.phase;
            let after = run.advance(event).phase;
            let result = run.advance(event).result;
            &&& after != before && after == Phase::OpeningStderr ==> before == Phase::OpeningStdout
                && event is Opened
            &&& after != before && after == Phase::Spawning ==> event is Opened && (before
                == Phase::OpeningStderr || (before == Phase::OpeningStdout
                && run.redirections.stderr is None))
            &&& after != before && after == Phase::Reading ==> before == Phase::Spawning
                && event is Spawned && run.piped()
            &&& after != before && after == Phase::Waiting ==> if run.piped() {
                (before == Phase::Reading && event is OutputRead) || before == Phase::ReportingRead
            } else {
                before == Phase::Spawning && event is Spawned
            }
            &&& after != before && after == Phase::Closing ==> before == Phase::Waiting
                && event is Exited
            &&& after != before && after == Phase::Printing ==> before == Phase::Closing
            &&& after != before && after == Phase::Finished && !(result is Failure) ==> before
                == Phase::Closing || before == Phase::Printing || before == Phase::ReportingFlush
            &&& before == Phase::Finished ==> run.advance(event) == run
        }),
{
}

/// How a run ends once the child has exited, whatever its exit status: the
/// files are closed, then what was read from the pipe is printed, if anything
/// was read, and then the run is over with the result of the child.
pub proof fn lemma_end_of_run(run: ExecView, success: bool)
    requires
        run.phase == Phase::Waiting,
    ensures
        ({
            let exited = run.advance(ExecEvent::Exited { success });
            let closed = exited.advance(ExecEvent::Done);
            let result = if success {
                CommandResultView::NoOutput
            } else {
                CommandResultView::SilentFailure
            };
            &&& exited.action() == ExecActionView::CloseFiles
            &&& if run.captured.len() > 0 {
                &&& closed.action() == ExecActionView::Print(run.captured)
                &&& closed.advance(ExecEvent::Done).action() == ExecActionView::Finish(result)
            } else {
                closed.action() == ExecActionView::Finish(result)
            }
        }),
{
}

/// Whether an event tells of trouble on the shell's side: a file, the
/// child, the pipe or standard output failed.
pub open spec fn is_trouble(event: ExecEvent) -> bool {
    match event {
        ExecEvent::OpenFailed(_) | ExecEvent::CloneFailed(_) | ExecEvent::SpawnFailed(_)
        | ExecEvent::WaitFailed(_) | ExecEvent::PrintFailed(_) => true,
        ExecEvent::OutputRead { text, error } => error is Some,
        _ => false,
    }
}

/// Without trouble on the shell's side a run never has a warning or a
/// message of the shell, from its start to its end: whatever the child's exit
/// status, the shell writes nothing but what the child wrote to the pipe.
pub proof fn lemma_untroubled_run_is_quiet(
    name: Seq<char>,
    path: Seq<char>,
    args: Seq<Seq<char>>,
    redirections: RedirectionSpec,
    events: Seq<ExecEvent>,
)
    requires
        forall|i: int| 0 <= i < events.len() ==> !is_trouble(#[trigger] events[i]),
    ensures
        ({
            let run = ExecView::start(name, path, args, redirections).after(events);
            &&& run.well_formed()
            &&& run.result == CommandResultView::NoOutput || run.result
                == CommandResultView::SilentFailure
            &&& match run.action() {
                ExecActionView::Warn(_) => false,
                ExecActionView::Print(text) => text == run.captured,
                ExecActionView::Finish(result) => result == run.result,
                _ => true,
            }
        }),
    decreases events.len(),
{
    if events.len() > 0 {
        lemma_untroubled_run_is_quiet(name, path, args, redirections, events.drop_last());
        assert(!is_trouble(events[events.len() - 1]));
    }
}

/// Once the child has exited with a failure the shell has no message of
/// its own: the files are closed, what the child wrote to the pipe is
/// printed, and the result is a silent failure, which delivers nothing.  This
/// holds as long as standard output can be flushed.  With standard error not
/// redirected the child has written its own messages where the shell's go.
pub proof fn lemma_failed_child_is_silent(run: ExecView, events: Seq<ExecEvent>)
    requires
        run.well_formed(),
        run.phase == Phase::Waiting,
        forall|i: int| 0 <= i < events.len() ==> !(#[trigger] events[i] is PrintFailed),
    ensures
        ({
            let end = run.advance(ExecEvent::Exited { success: false }).after(events);
            &&& end.result == CommandResultView::SilentFailure
            &&& end.captured == run.captured
            &&& match end.action() {
                ExecActionView::CloseFiles => true,
                ExecActionView::Print(text) => text == run.captured,
                ExecActionView::Finish(result) => result == CommandResultView::SilentFailure,
                _ => false,
            }
            &&& delivery(end.result, run.redirections) == Seq::<SinkActionView>::empty()
            &&& run.redirections.stderr is None ==> run.spawn_request().stderr == Wiring::Inherit
        }),
    decreases events.len(),
{
    if events.len() > 0 {
        lemma_failed_child_is_silent(run, events.drop_last());
    }
}

/// A child that has exited with success leaves the same: nothing but its
/// own output is printed, and nothing is left to deliver to standard output.
pub proof fn lemma_successful_child(run: ExecView, events: Seq<ExecEvent>)
    requires
        run.well_formed(),
        run.phase == Phase::Waiting,
        forall|i: int| 0 <= i < events.len() ==> !(#[trigger] events[i] is PrintFailed),
    ensures
        ({
            let end = run.advance(ExecEvent::Exited { success: true }).after(events);
            &&& end.result == CommandResultView::NoOutput
            &&& end.captured == run.captured
            &&& match end.action() {
                ExecActionView::CloseFiles => true,
                ExecActionView::Print(text) => text == run.captured,
                ExecActionView::Finish(result) => result == CommandResultView::NoOutput,
                _ => false,
            }
        }),
    decreases events.len(),
{
    if events.len() > 0 {
        lemma_successful_child(run, events.drop_last());
    }
}

/// The run of one external command.
#[derive(Debug)]
pub struct ExternalCommand {
    name: String,
    path: String,
    args: Vec<String>,
    redirections: Redirections,
    phase: Phase,
    captured: String,
    warning: String,
    result: CommandResult,
}

impl View for ExternalCommand {
    type V = ExecView;

    closed spec fn view(&self) -> ExecView {
        ExecView {
            name: self.name@,
            path: self.path@,
            args: self.args.deep_view(),
            redirections: self.redirections@,
            phase: self.phase,
            captured: self.captured@,
            warning: self.warning@,
            result: self.result@,
        }
    }
}

/// The name of a stream in messages.
fn name_of_stream(stream: Stream) -> (name: &'static str)
    ensures
        name@ == stream_name(stream),
{
    match stream {
        Stream::Stdout => "stdout",
        Stream::Stderr => "stderr",
    }
}

/// Words the message for a file that could not be opened.
fn open_failure_message(stream: Stream, filename: &str, reason: &str) -> (message: String)
    ensures
        message@ == open_failure(stream, filename@, reason@),
{
    let mut message = "failed to open ".to_string();
    message.append(name_of_stream(stream));
    message.append(" redirect file '");
    message.append(filename);
    message.append("': ");
    message.append(reason);
    message
}

/// Words the message for a file of which no second handle could be had.
fn clone_failure_message(stream: Stream, reason: &str) -> (message: String)
    ensures
        message@ == clone_failure(stream, reason@),
{
    let mut message = "failed to clone ".to_string();
    message.append(name_of_stream(stream));
    message.append(" file handle: ");
    message.append(reason);
    message
}

/// Words the message for a program that could not be started.
fn spawn_failure_message(name: &str, failure: &IoFailure) -> (message: String)
    ensures
        message@ == spawn_failure(name@, failure.kind, failure.text@),
{
    match failure.kind {
        FailureKind::NotFound => {
            let mut message = name.to_string();
            message.append(": command not found (spawn error)");
            message
        },
        FailureKind::PermissionDenied => {
            let mut message = name.to_string();
            message.append(": Permission denied");
            message
        },
        FailureKind::Other => {
            let mut message = "failed to execute command '".to_string();
            message.append(name);
            message.append("': ");
            message.append(failure.text.as_str());
            message
        },
    }
}

/// Words the message for a child that could not be waited for.
fn wait_failure_message(name: &str, reason: &str) -> (message: String)
    ensures
        message@ == wait_failure(name@, reason@),
{
    let mut message = "failed to wait for command '".to_string();
    message.append(name);
    message.append("': ");
    message.append(reason);
    message
}

/// Makes a warning of its start and the reason, as a line.
fn warning_line(start: &str, reason: &str) -> (line: String)
    ensures
        line@ == start@ + reason@ + "\n"@,
{
    let mut line = start.to_string();
    line.append(reason);
    line.append("\n");
    line
}

impl ExternalCommand {
    /// Every run is well formed.
    #[verifier::type_invariant]
    spec fn well_formed(self) -> bool {
        self@.well_formed()
    }

    /// What the caller has to do next.
    pub fn action(&self) -> (action: ExecAction)
        ensures
            action@ == self@.action(),
            self@.well_formed(),
    {
        proof {
            use_type_invariant(self);
        }
        match self.phase {
            Phase::OpeningStdout => match &self.redirections.stdout_redirect {
                Some(file) => ExecAction::OpenStdout(file.open_request(false)),
                None => unreached(),
            },
            Phase::OpeningStderr => match &self.redirections.stderr_redirect {
                Some(file) => ExecAction::OpenStderr(file.open_request(false)),
                None => unreached(),
            },
            Phase::Spawning => ExecAction::Spawn(
                SpawnRequest {
                    program: self.path.clone(),
                    arg0: self.name.clone(),
                    args: copy_strings(self.args.as_slice()),
                    stdout: if self.redirections.stdout_redirect.is_some() {
                        Wiring::File
                    } else {
                        Wiring::Pipe
                    },
                    stderr: if self.redirections.stderr_redirect.is_some() {
                        Wiring::File
                    } else {
                        Wiring::Inherit
                    },
                },
            ),
            Phase::Reading => ExecAction::ReadOutput,
            Phase::ReportingRead | Phase::ReportingFlush => ExecAction::Warn(self.warning.clone()),
            Phase::Waiting => ExecAction::Wait,
            Phase::Closing => ExecAction::CloseFiles,
            Phase::Printing => ExecAction::Print(self.captured.clone()),
            Phase::Finished => ExecAction::Finish(self.result.clone()),
        }
    }

    /// Ends the run with a message of the shell.
    fn fail(self, message: String) -> (next: ExternalCommand)
        ensures
            next@ == self@.fail(message@),
    {
        proof {
            use_type_invariant(&self);
        }
        let mut next = self;
        next.phase = Phase::Finished;
        next.result = CommandResult::Failure(message);
        next
    }

    /// Moves the run to another step.
    fn to(self, phase: Phase) -> (next: ExternalCommand)
        requires
            self@.to(phase).well_formed(),
        ensures
            next@ == self@.to(phase),
    {
        let mut next = self;
        next.phase = phase;
        next
    }

    /// Goes on with the run after an event.
    pub fn advance(self, event: ExecEvent) -> (next: ExternalCommand)
        ensures
            next@ == self@.advance(event),
            next@.well_formed(),
    {
        proof {
            use_type_invariant(&self);
        }
        match (self.phase, event) {
            (Phase::OpeningStdout, ExecEvent::Opened) => {
                let phase = if self.redirections.stderr_redirect.is_some() {
                    Phase::OpeningStderr
                } else {
                    Phase::Spawning
                };
                self.to(phase)
            },
            (Phase::OpeningStdout, ExecEvent::OpenFailed(failure)) => {
                let message = match &self.redirections.stdout_redirect {
                    Some(file) => open_failure_message(
                        Stream::Stdout,
                        file.filename.as_str(),
                        failure.describe(file.filename.as_str()).as_str(),
                    ),
                    None => unreached(),
                };
                self.fail(message)
            },
            (Phase::OpeningStdout, ExecEvent::CloneFailed(reason)) => {
                let message = clone_failure_message(Stream::Stdout, reason.as_str());
                self.fail(message)
            },
            (Phase::OpeningStderr, ExecEvent::Opened) => self.to(Phase::Spawning),
            (Phase::OpeningStderr, ExecEvent::OpenFailed(failure)) => {
                let message = match &self.redirections.stderr_redirect {
                    Some(file) => open_failure_message(
                        Stream::Stderr,
                        file.filename.as_str(),
                        failure.describe(file.filename.as_str()).as_str(),
                    ),
                    None => unreached(),
                };
                self.fail(message)
            },
            (Phase::OpeningStderr, ExecEvent::CloneFailed(reason)) => {
                let message = clone_failure_message(Stream::Stderr, reason.as_str());
                self.fail(message)
            },
            (Phase::Spawning, ExecEvent::Spawned) => {
                let phase = if self.redirections.stdout_redirect.is_none() {
                    Phase::Reading
                } else {
                    Phase::Waiting
                };
                self.to(phase)
            },
            (Phase::Spawning, ExecEvent::SpawnFailed(failure)) => {
                let message = spawn_failure_message(self.name.as_str(), &failure);
                self.fail(message)
            },
            (Phase::Reading, ExecEvent::OutputRead { text, error }) => {
                let mut next = self;
                next.captured = text;
                match error {
                    Some(reason) => {
                        next.warning = warning_line(
                            "shell: warning: error reading command stdout pipe: ",
                            reason.as_str(),
                        );
                        next.phase = Phase::ReportingRead;
                    },
                    None => {
                        next.phase = Phase::Waiting;
                    },
                }
                next
            },
            (Phase::ReportingRead, ExecEvent::Done) => self.to(Phase::Waiting),
            (Phase::Waiting, ExecEvent::Exited { success }) => {
                let mut next = self;
                next.result = if success {
                    CommandResult::NoOutput
                } else {
                    CommandResult::SilentFailure
                };
                next.phase = Phase::Closing;
                next
            },
            (Phase::Waiting, ExecEvent::WaitFailed(reason)) => {
                let message = wait_failure_message(self.name.as_str(), reason.as_str());
                self.fail(message)
            },
            (Phase::Closing, ExecEvent::Done) => {
                let phase = if self.captured.as_str().is_empty() {
                    Phase::Finished
                } else {
                    Phase::Printing
                };
                self.to(phase)
            },
            (Phase::Printing, ExecEvent::Done) => self.to(Phase::Finished),
            (Phase::Printing, ExecEvent::PrintFailed(reason)) => {
                let mut next = self;
                next.warning = warning_line("shell: error flushing stdout: ", reason.as_str());
                next.phase = Phase::ReportingFlush;
                next
            },
            (Phase::ReportingFlush, ExecEvent::Done) => self.to(Phase::Finished),
            _ => self,
        }
    }
}

/// Starts the run of the program at `command_path` under the name
/// `command_name`.
pub fn execute_external_command(
    command_name: &str,
    command_path: &str,
    args: &[String],
    redirections: &Redirections,
) -> (run: ExternalCommand)
    ensures
        run@ == ExecView::start(
            command_name@,
            command_path@,
            args.deep_view(),
            redirections@,
        ),
        run@.well_formed(),
{
    let phase = if redirections.stdout_redirect.is_some() {
        Phase::OpeningStdout
    } else if redirections.stderr_redirect.is_some() {
        Phase::OpeningStderr
    } else {
        Phase::Spawning
    };
    ExternalCommand {
        name: command_name.to_string(),
        path: command_path.to_string(),
        args: copy_strings(args),
        redirections: redirections.clone(),
        phase,
        captured: String::new(),
        warning: String::new(),
        result: CommandResult::NoOutput,
    }
}

} // verus!
