//! Delivering the result of a command.
//!
//! The result goes to the terminal or to the files that the command's
//! streams are redirected to.  A redirection makes its file even when nothing
//! is written to it.  What is decided here is a list of actions for the
//! caller to carry out, and what to tell the user when one of them fails.

use vstd::prelude::*;
use vstd::string::StringExecFns;
use crate::command::{CommandResult, CommandResultView};
use crate::redirect::{
    target_of, OpenRequest, OpenRequestView, RedirectFile, RedirectTarget, RedirectionMode,
    RedirectionSpec, Redirections, Stream, WriteFailure,
};

verus! {

/// One thing to do to deliver a result.
#[derive(Debug, PartialEq, Eq)]
pub enum SinkAction {
    /// Write the text to the terminal's standard output.
    PrintStdout(String),
    /// Write the text to the terminal's standard error.
    PrintStderr(String),
    /// Open the file and write the text to it.  `stream` is the stream that
    /// the file stands for.  `fallback` goes to the terminal's standard error
    /// where the file cannot be opened.
    WriteFile { request: OpenRequest, text: String, stream: Stream, fallback: Option<String> },
    /// Open the file and close it again, so that it exists.  A failure is
    /// passed over.
    Touch(OpenRequest),
}

/// An action as a value.
pub enum SinkActionView {
    PrintStdout(Seq<char>),
    PrintStderr(Seq<char>),
    WriteFile {
        request: OpenRequestView,
        text: Seq<char>,
        stream: Stream,
        fallback: Option<Seq<char>>,
    },
    Touch(OpenRequestView),
}

impl View for SinkAction {
    type V = SinkActionView;

    open spec fn view(&self) -> SinkActionView {
        match self {
            SinkAction::PrintStdout(text) => SinkActionView::PrintStdout(text@),
            SinkAction::PrintStderr(text) => SinkActionView::PrintStderr(text@),
            SinkAction::WriteFile { request, text, stream, fallback } => SinkActionView::WriteFile {
                request: request@,
                text: text@,
                stream: *stream,
                fallback: match fallback {
                    Some(text) => Some(text@),
                    None => None,
                },
            },
            SinkAction::Touch(request) => SinkActionView::Touch(request@),
        }
    }
}

impl DeepView for SinkAction {
    type V = SinkActionView;

    open spec fn deep_view(&self) -> SinkActionView {
        self@
    }
}

/// How a redirection target is opened when the shell itself writes it: as
/// the mode says, and not if it is a directory.
pub open spec fn redirect_request(filename: Seq<char>, mode: RedirectionMode) -> OpenRequestView {
    (RedirectTarget { path: filename, mode }).open_request(true)
}

/// Says how the file of a redirection is opened.
pub fn create_redirect_file(filename: &str, mode: RedirectionMode) -> (request: OpenRequest)
    ensures
        request@ == redirect_request(filename@, mode),
{
    OpenRequest {
        filename: filename.to_string(),
        truncate: mode == RedirectionMode::Overwrite,
        append: mode == RedirectionMode::Append,
        refuse_directory: true,
    }
}

/// The action that makes the file of a redirection exist.
pub fn ensure_redirect_file_exists(filename: &str, mode: RedirectionMode) -> (action: SinkAction)
    ensures
        action@ == SinkActionView::Touch(redirect_request(filename@, mode)),
{
    SinkAction::Touch(create_redirect_file(filename, mode))
}

/// The action that makes the target of a redirection exist.
pub open spec fn touch(target: RedirectTarget) -> SinkActionView {
    SinkActionView::Touch(redirect_request(target.path, target.mode))
}

/// Where text for standard output goes: into the file that standard
/// output is redirected to, opened as its mode says, or to the terminal.
pub open spec fn stdout_action(output: Seq<char>, redirections: RedirectionSpec) -> SinkActionView {
    match redirections.stdout {
        Some(target) => SinkActionView::WriteFile {
            request: redirect_request(target.path, target.mode),
            text: output,
            stream: Stream::Stdout,
            fallback: None,
        },
        None => SinkActionView::PrintStdout(output),
    }
}

/// The action that delivers text for standard output.
pub fn write_stdout(output: &str, redirections: &Redirections) -> (action: SinkAction)
    ensures
        action@ == stdout_action(output@, redirections@),
{
    match &redirections.stdout_redirect {
        Some(stdout_redirect) => SinkAction::WriteFile {
            request: create_redirect_file(stdout_redirect.filename.as_str(), stdout_redirect.mode),
            text: output.to_string(),
            stream: Stream::Stdout,
            fallback: None,
        },
        None => SinkAction::PrintStdout(output.to_string()),
    }
}

/// Where a message for standard error goes: as a line of its own into the
/// file that standard error is redirected to, or to the terminal.  The file
/// is opened as its mode says: emptied to be overwritten, left as it is to be
/// appended to.  Where it cannot be opened the message goes to the terminal
/// after all.
pub open spec fn stderr_action(error_msg: Seq<char>, redirections: RedirectionSpec) -> SinkActionView {
    match redirections.stderr {
        Some(target) => SinkActionView::WriteFile {
            request: target.open_request(false),
            text: error_msg + "\n"@,
            stream: Stream::Stderr,
            fallback: Some(error_msg + "\r\n"@),
        },
        None => SinkActionView::PrintStderr(error_msg + "\r\n"@),
    }
}

/// The action that delivers a message for standard error.
pub fn write_stderr(error_msg: &str, redirections: &Redirections) -> (action: SinkAction)
    ensures
        action@ == stderr_action(error_msg@, redirections@),
{
    let mut line = error_msg.to_string();
    line.append("\r\n");
    match &redirections.stderr_redirect {
        Some(stderr_redirect) => {
            let mut text = error_msg.to_string();
            text.append("\n");
            SinkAction::WriteFile {
                request: stderr_redirect.open_request(false),
                text,
                stream: Stream::Stderr,
                fallback: Some(line),
            }
        },
        None => SinkAction::PrintStderr(line),
    }
}

/// The action that makes the target of a stream exist, if the stream is
/// redirected.
pub open spec fn touch_if_redirected(target: Option<RedirectTarget>) -> Seq<SinkActionView> {
    match target {
        Some(target) => seq![touch(target)],
        None => Seq::empty(),
    }
}

/// What delivers a result.
///
/// Text goes to standard output, and the file of standard error is made.  A
/// message goes to standard error, and the file of standard output is made.
/// Where there is nothing to deliver only the file of standard error is
/// made: that of standard output is left alone, since an external command has
/// written it itself.  After an external command that failed nothing is done.
pub open spec fn delivery(result: CommandResultView, redirections: RedirectionSpec) -> Seq<
    SinkActionView,
> {
    match result {
        CommandResultView::Output(text) => seq![stdout_action(text, redirections)]
            + touch_if_redirected(redirections.stderr),
        CommandResultView::NoOutput => touch_if_redirected(redirections.stderr),
        CommandResultView::Failure(message) => seq![stderr_action(message, redirections)]
            + touch_if_redirected(redirections.stdout),
        CommandResultView::SilentFailure => Seq::empty(),
    }
}

/// What a command without anything to deliver still has to do: the file
/// of a redirected standard error is made.  That of standard output is left
/// alone, since an external command has written it itself.
pub fn ensure_redirect_files_exist(redirections: &Redirections) -> (actions: Vec<SinkAction>)
    ensures
        actions.deep_view() == touch_if_redirected(redirections@.stderr),
{
    let mut actions: Vec<SinkAction> = Vec::new();
    push_touch(&mut actions, &redirections.stderr_redirect);
    actions
}

/// Adds the action that makes the file of a stream exist, if the stream is
/// redirected.
fn push_touch(actions: &mut Vec<SinkAction>, file: &Option<RedirectFile>)
    ensures
        final(actions).deep_view() == old(actions).deep_view() + touch_if_redirected(
            target_of(*file),
        ),
{
    match file {
        Some(file) => {
            actions.push(ensure_redirect_file_exists(file.filename.as_str(), file.mode));
        },
        None => {},
    }
}

/// Says what has to be done to deliver the result of a command, in the
/// order in which it has to be done.
pub fn handle_command_result(result: CommandResult, redirections: &Redirections) -> (actions: Vec<
    SinkAction,
>)
    ensures
        actions.deep_view() == delivery(result@, redirections@),
{
    let mut actions: Vec<SinkAction> = Vec::new();
    match result {
        CommandResult::Output(output_str) => {
            let action = write_stdout(output_str.as_str(), redirections);
            actions.push(action);
            push_touch(&mut actions, &redirections.stderr_redirect);
        },
        CommandResult::NoOutput => {
            actions = ensure_redirect_files_exist(redirections);
        },
        CommandResult::Failure(err_msg) => {
            let action = write_stderr(err_msg.as_str(), redirections);
            actions.push(action);
            push_touch(&mut actions, &redirections.stdout_redirect);
        },
        CommandResult::SilentFailure => {},
    }
    actions
}

/// Whether an action opens the file `filename`, which makes the file where
/// it does not exist.
pub open spec fn opens(action: SinkActionView, filename: Seq<char>) -> bool {
    match action {
        SinkActionView::WriteFile { request, .. } => request.filename == filename,
        SinkActionView::Touch(request) => request.filename == filename,
        _ => false,
    }
}

/// A message of the shell still makes the file that standard output is
/// redirected to, and writes nothing to it: the last action makes the file,
/// and the only text that is written goes to the file of standard error.
pub proof fn lemma_failure_makes_output_file(message: Seq<char>, redirections: RedirectionSpec)
    requires
        redirections.stdout is Some,
    ensures
        delivery(CommandResultView::Failure(message), redirections) == seq![
            stderr_action(message, redirections),
            touch(redirections.stdout->Some_0),
        ],
        touch(redirections.stdout->Some_0) == SinkActionView::Touch(
            redirections.stdout->Some_0.open_request(true),
        ),
        forall|i: int|
            0 <= i < delivery(CommandResultView::Failure(message), redirections).len() ==> (
            #[trigger] delivery(CommandResultView::Failure(message), redirections)[i]
                matches SinkActionView::WriteFile { request, .. } ==> redirections.stderr is Some
                && request.filename == redirections.stderr->Some_0.path),
{
}

/// Every redirection makes its file, whatever the shell has to deliver,
/// with one exception: where there is nothing to deliver the file of standard
/// output is left alone.
pub proof fn lemma_redirections_make_their_files(
    result: CommandResultView,
    redirections: RedirectionSpec,
    stream: Stream,
)
    requires
        redirections.target(stream) is Some,
        !(result is SilentFailure),
        !(result is NoOutput && stream == Stream::Stdout),
    ensures
        exists|i: int|
            0 <= i < delivery(result, redirections).len() && opens(
                #[trigger] delivery(result, redirections)[i],
                redirections.target(stream)->Some_0.path,
            ),
{
    let actions = delivery(result, redirections);
    let path = redirections.target(stream)->Some_0.path;
    match (result, stream) {
        (CommandResultView::Output(_), Stream::Stdout) => assert(opens(actions[0], path)),
        (CommandResultView::Output(_), Stream::Stderr) => assert(opens(actions[1], path)),
        (CommandResultView::Failure(_), Stream::Stdout) => assert(opens(actions[1], path)),
        (CommandResultView::Failure(_), Stream::Stderr) => assert(opens(actions[0], path)),
        _ => assert(opens(actions[0], path)),
    }
}

/// Whether a file is opened as a redirection target says: the file of the
/// target, emptied to be overwritten, left as it is to be appended to.
pub open spec fn opened_as(request: OpenRequestView, target: RedirectTarget) -> bool {
    &&& request.filename == target.path
    &&& request.truncate == (target.mode == RedirectionMode::Overwrite)
    &&& request.append == (target.mode == RedirectionMode::Append)
}

/// Whatever is delivered, a file is opened as the mode of its redirection
/// says, for text and for a message alike: `>` and `2>` empty the file, `>>`
/// and `2>>` keep what it holds.
pub proof fn lemma_files_are_opened_as_their_mode_says(
    result: CommandResultView,
    redirections: RedirectionSpec,
    i: int,
)
    requires
        0 <= i < delivery(result, redirections).len(),
    ensures
        match delivery(result, redirections)[i] {
            SinkActionView::WriteFile { request, stream, .. } => redirections.target(stream)
                matches Some(target) && opened_as(request, target),
            SinkActionView::Touch(request) => {
                ||| redirections.stdout matches Some(target) && opened_as(request, target)
                ||| redirections.stderr matches Some(target) && opened_as(request, target)
            },
            _ => true,
        },
{
}

/// Nothing is delivered after an external command that failed.
pub proof fn lemma_silent_failure_delivers_nothing(redirections: RedirectionSpec)
    ensures
        delivery(CommandResultView::SilentFailure, redirections).len() == 0,
{
}

/// What the user is told on the terminal when a file could not be written.
///
/// A file that could not be opened is named with the stream that it stands
/// for, and the text that was meant for it goes to the terminal if it has a
/// fallback.  A file that could not be written is named too.  A failure to
/// print, or to make a file exist, is passed over.
pub open spec fn failure_report(action: SinkActionView, failure: WriteFailure) -> Seq<
    SinkActionView,
> {
    match action {
        SinkActionView::WriteFile { request, text, stream, fallback } => match failure {
            WriteFailure::Write(reason) => seq![
                SinkActionView::PrintStderr(
                    match stream {
                        Stream::Stdout => "shell: error writing built-in stdout to '"@,
                        Stream::Stderr => "shell: error writing error to stderr redirect file '"@,
                    } + request.filename + "': "@ + reason@ + "\r\n"@,
                ),
            ],
            _ => seq![
                SinkActionView::PrintStderr(
                    match stream {
                        Stream::Stdout => "shell: failed to open stdout redirect file '"@,
                        Stream::Stderr => "shell: failed to open stderr redirect file '"@,
                    } + request.filename + "': "@ + failure.text(request.filename)
                        + "\r\n"@,
                ),
            ] + match fallback {
                Some(text) => seq![SinkActionView::PrintStderr(text)],
                None => Seq::empty(),
            },
        },
        _ => Seq::empty(),
    }
}

/// Says what to tell the user when `action` failed.
pub fn report_failure(action: &SinkAction, failure: &WriteFailure) -> (report: Vec<SinkAction>)
    ensures
        report.deep_view() == failure_report(action@, *failure),
{
    let mut report: Vec<SinkAction> = Vec::new();
    match action {
        SinkAction::WriteFile { request, text, stream, fallback } => {
            let filename = request.filename.as_str();
            match failure {
                WriteFailure::Write(reason) => {
                    let mut line = match stream {
                        Stream::Stdout => "shell: error writing built-in stdout to '".to_string(),
                        Stream::Stderr => "shell: error writing error to stderr redirect file '".to_string(),
                    };
                    line.append(filename);
                    line.append("': ");
                    line.append(reason.as_str());
                    line.append("\r\n");
                    report.push(SinkAction::PrintStderr(line));
                },
                _ => {
                    let mut line = match stream {
                        Stream::Stdout => "shell: failed to open stdout redirect file '".to_string(),
                        Stream::Stderr => "shell: failed to open stderr redirect file '".to_string(),
                    };
                    line.append(filename);
                    line.append("': ");
                    line.append(failure.describe(filename).as_str());
                    line.append("\r\n");
                    report.push(SinkAction::PrintStderr(line));
                    match fallback {
                        Some(text) => report.push(SinkAction::PrintStderr(text.clone())),
                        None => {},
                    }
                },
            }
        },
        _ => {},
    }
    report
}

} // verus!
