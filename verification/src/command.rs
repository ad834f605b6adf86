//! What running one command comes to.

use vstd::prelude::*;

verus! {

/// The result of one command.
#[derive(Debug, PartialEq, Eq)]
pub enum CommandResult {
    /// The command succeeded with text for its standard output.
    Output(String),
    /// The command succeeded and nothing is left to deliver.
    NoOutput,
    /// The shell itself has a message for standard error.
    Failure(String),
    /// An external command failed and has reported that itself.
    SilentFailure,
}

/// A command's result as a value.
pub enum CommandResultView {
    Output(Seq<char>),
    NoOutput,
    Failure(Seq<char>),
    SilentFailure,
}

impl View for CommandResult {
    type V = CommandResultView;

    open spec fn view(&self) -> CommandResultView {
        match self {
            CommandResult::Output(text) => CommandResultView::Output(text@),
            CommandResult::NoOutput => CommandResultView::NoOutput,
            CommandResult::Failure(message) => CommandResultView::Failure(message@),
            CommandResult::SilentFailure => CommandResultView::SilentFailure,
        }
    }
}

impl Clone for CommandResult {
    fn clone(&self) -> (copy: CommandResult)
        ensures
            copy@ == self@,
    {
        match self {
            CommandResult::Output(text) => CommandResult::Output(text.clone()),
            CommandResult::NoOutput => CommandResult::NoOutput,
            CommandResult::Failure(message) => CommandResult::Failure(message.clone()),
            CommandResult::SilentFailure => CommandResult::SilentFailure,
        }
    }
}

/// What a builtin returns, as a value: text to print, nothing, or a message.
pub type BuiltinView = Result<Option<Seq<char>>, Seq<char>>;

/// The value of a builtin's result.
pub open spec fn builtin_view(result: Result<Option<String>, String>) -> BuiltinView {
    match result {
        Ok(Some(text)) => Ok(Some(text@)),
        Ok(None) => Ok(None),
        Err(message) => Err(message@),
    }
}

impl CommandResultView {
    /// The result of a builtin as the result of a command.
    pub open spec fn of_builtin(result: BuiltinView) -> CommandResultView {
        match result {
            Ok(Some(text)) => CommandResultView::Output(text),
            Ok(None) => CommandResultView::NoOutput,
            Err(message) => CommandResultView::Failure(message),
        }
    }
}

impl CommandResultView {
    /// Whether the result says something where it is a message of the
    /// shell: such a message is never empty.
    pub open spec fn has_message(self) -> bool {
        self matches CommandResultView::Failure(message) ==> message.len() > 0
    }
}

impl CommandResult {
    /// Turns the result of a builtin into the result of a command.  A message
    /// is a failure of the shell, whatever it says.
    pub fn from_builtin(result: Result<Option<String>, String>) -> (converted: CommandResult)
        ensures
            converted@ == CommandResultView::of_builtin(builtin_view(result)),
    {
        match result {
            Ok(Some(text)) => CommandResult::Output(text),
            Ok(None) => CommandResult::NoOutput,
            Err(message) => CommandResult::Failure(message),
        }
    }
}

/// What kind of failure the operating system reported.
#[derive(Debug, Clone, Copy, PartialEq, Eq, Structural)]
pub enum FailureKind {
    NotFound,
    PermissionDenied,
    Other,
}

/// A failure that the operating system reported: its kind, and its
/// description as the system words it.
#[derive(Debug)]
pub struct IoFailure {
    pub kind: FailureKind,
    pub text: String,
}

} // verus!
