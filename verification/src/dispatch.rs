//! Running a command.
//!
//! `exit`, `echo`, `pwd`, `cd` and `type` are builtins; every other name is
//! that of a program, which is searched and then run.  A command is run step
//! by step: at each step it either is over, or asks for something that only
//! the operating system can tell or do, and goes on when it is answered.

use vstd::prelude::*;
use vstd::string::StringExecFns;
use crate::builtins::{
    cd_destination, change_dir, change_dir_outcome, change_view, echo_text, exit_code,
    handle_cd, handle_echo, handle_exit, handle_pwd, handle_type, is_builtin, is_builtin_name,
    lemma_builtin_messages_not_empty, pwd_outcome, result_text, type_lookup, type_outcome,
};
use crate::command::{CommandResult, CommandResultView, IoFailure};
use crate::exec::{
    find_exec_in_path, found_text, lemma_answer_keeps_course, Answer, PathSearch, Probe,
    ProbeView, SearchStage, SearchView, Step, World,
};
use crate::external::{
    execute_external_command, lemma_failures_have_messages, ExecAction, ExecActionView,
    ExecEvent, ExecView, ExternalCommand, Phase,
};
use crate::redirect::{RedirectionSpec, Redirections};
use crate::text::{copy_strings, optional_text};

verus! {

/// What a command asks for.
#[derive(Debug, PartialEq, Eq)]
pub enum Request {
    /// The working directory.
    CurrentDir,
    /// The value of `HOME`.
    Home,
    /// That the working directory be changed to this one.
    ChangeDir(String),
    /// An answer to a probe of the search for a program.
    Probe(Probe),
    /// That an action of the run of a program be carried out.
    Exec(ExecAction),
}

/// A request as a value.
pub enum RequestView {
    CurrentDir,
    Home,
    ChangeDir(Seq<char>),
    Probe(ProbeView),
    Exec(ExecActionView),
}

impl View for Request {
    type V = RequestView;

    open spec fn view(&self) -> RequestView {
        match self {
            Request::CurrentDir => RequestView::CurrentDir,
            Request::Home => RequestView::Home,
            Request::ChangeDir(target) => RequestView::ChangeDir(target@),
            Request::Probe(probe) => RequestView::Probe(probe@),
            Request::Exec(action) => RequestView::Exec(action@),
        }
    }
}

/// What a command is answered.
#[derive(Debug)]
pub enum Reply {
    /// The working directory, or why the system could not tell it.
    CurrentDir(Result<String, String>),
    /// The value of `HOME`; `None` where it is not set.
    Home(Option<String>),
    /// What came of changing the working directory.
    Changed(Result<(), IoFailure>),
    /// The answer to a probe.
    Probe(Answer),
    /// What came of an action of the run.
    Exec(ExecEvent),
}

/// Where a command stands.
#[derive(Debug, PartialEq, Eq)]
pub enum CommandStep {
    /// The command goes on when this request is answered.
    Ask(Request),
    /// The shell ends with this exit code.
    Exit(i32),
    /// The command is over, with this result.
    Done(CommandResult),
}

/// A step as a value.
pub enum CommandStepView {
    Ask(RequestView),
    Exit(int),
    Done(CommandResultView),
}

impl View for CommandStep {
    type V = CommandStepView;

    open spec fn view(&self) -> CommandStepView {
        match self {
            CommandStep::Ask(request) => CommandStepView::Ask(request@),
            CommandStep::Exit(code) => CommandStepView::Exit(*code as int),
            CommandStep::Done(result) => CommandStepView::Done(result@),
        }
    }
}

/// A command as a value.
pub enum CommandView {
    /// `exit`, with the exit code.
    Exit(int),
    /// The command is over.
    Done(CommandResultView),
    /// `pwd` waits for the working directory.
    Pwd,
    /// `cd` waits for the value of `HOME`.
    Cd { args: Seq<Seq<char>> },
    /// `cd` waits for the working directory to be changed.
    Changing { target: Seq<char> },
    /// `type` waits for the search for its argument.
    Type { args: Seq<Seq<char>>, search: SearchView },
    /// A program is searched.
    Searching {
        name: Seq<char>,
        args: Seq<Seq<char>>,
        redirections: RedirectionSpec,
        search: SearchView,
    },
    /// A program runs.
    Running(ExecView),
}

/// The command that a search leads to when it is over.
pub open spec fn found_by(search: SearchView) -> Option<Seq<char>> {
    match search.stage {
        SearchStage::Finished(found) => found,
        _ => None,
    }
}

/// What becomes of a program once it has been searched: its run where it
/// was found, a message where it was not.
pub open spec fn external_dispatch(
    name: Seq<char>,
    found: Option<Seq<char>>,
    args: Seq<Seq<char>>,
    redirections: RedirectionSpec,
) -> Result<ExecView, CommandResultView> {
    match found {
        Some(path) => Ok(ExecView::start(name, path, args, redirections)),
        None => Err(CommandResultView::Failure(name + ": command not found"@)),
    }
}

impl CommandView {
    /// The command `name` with the arguments `args` before its first step.
    ///
    /// `exit` ends the shell and `echo` is over at once.  `type` is over at
    /// once unless it has to look a name up.  Any name that is not a
    /// builtin's is searched as a program.
    pub open spec fn start(
        name: Seq<char>,
        args: Seq<Seq<char>>,
        redirections: RedirectionSpec,
    ) -> CommandView {
        if name == "exit"@ {
            CommandView::Exit(exit_code(args))
        } else if name == "echo"@ {
            CommandView::Done(CommandResultView::Output(echo_text(args)))
        } else if name == "pwd"@ {
            CommandView::Pwd
        } else if name == "cd"@ {
            CommandView::Cd { args }
        } else if name == "type"@ {
            match type_lookup(args) {
                Some(wanted) => CommandView::Type { args, search: SearchView::start(wanted) },
                None => CommandView::Done(CommandResultView::of_builtin(type_outcome(args, None))),
            }
        } else {
            CommandView::Searching { name, args, redirections, search: SearchView::start(name) }
        }
    }

    /// Whether the command is sound: a search or a run that it waits for is
    /// not over yet.
    pub open spec fn well_formed(self) -> bool {
        match self {
            CommandView::Type { args, search } => search.fits() && search.probe() is Some,
            CommandView::Searching { search, .. } => search.fits() && search.probe() is Some,
            CommandView::Running(run) => run.well_formed() && run.phase != Phase::Finished,
            _ => true,
        }
    }

    /// Where the command stands.
    pub open spec fn step(self) -> CommandStepView {
        match self {
            CommandView::Exit(code) => CommandStepView::Exit(code),
            CommandView::Done(result) => CommandStepView::Done(result),
            CommandView::Pwd => CommandStepView::Ask(RequestView::CurrentDir),
            CommandView::Cd { .. } => CommandStepView::Ask(RequestView::Home),
            CommandView::Changing { target } => CommandStepView::Ask(
                RequestView::ChangeDir(target),
            ),
            CommandView::Type { search, .. } => CommandStepView::Ask(
                RequestView::Probe(search.probe()->Some_0),
            ),
            CommandView::Searching { search, .. } => CommandStepView::Ask(
                RequestView::Probe(search.probe()->Some_0),
            ),
            CommandView::Running(run) => CommandStepView::Ask(RequestView::Exec(run.action())),
        }
    }

    /// The command after a run has taken a step: over when the run is over.
    pub open spec fn running(run: ExecView) -> CommandView {
        if run.phase == Phase::Finished {
            CommandView::Done(run.result)
        } else {
            CommandView::Running(run)
        }
    }

    /// The command after a reply.
    ///
    /// `pwd` ends with the working directory.  `cd` goes on to change the
    /// directory, or ends with a message, and ends with what came of the
    /// change.  `type` ends when the search is over, with what was found.  A
    /// program that was not found ends the command with a message; one that
    /// was found is run, and the command ends with its result.  A reply to a
    /// request that the command did not make changes nothing.
    pub open spec fn reply(self, reply: Reply) -> CommandView {
        match (self, reply) {
            (CommandView::Pwd, Reply::CurrentDir(current_dir)) => CommandView::Done(
                CommandResultView::of_builtin(pwd_outcome(result_text(current_dir))),
            ),
            (CommandView::Cd { args }, Reply::Home(home)) => match cd_destination(
                args,
                found_text(home),
            ) {
                Ok(target) => CommandView::Changing { target },
                Err(message) => CommandView::Done(CommandResultView::Failure(message)),
            },
            (CommandView::Changing { target }, Reply::Changed(changed)) => CommandView::Done(
                CommandResultView::of_builtin(change_dir_outcome(target, change_view(changed))),
            ),
            (CommandView::Type { args, search }, Reply::Probe(answer)) => if search.answer(
                answer,
            ).probe() is Some {
                CommandView::Type { args, search: search.answer(answer) }
            } else {
                CommandView::Done(
                    CommandResultView::of_builtin(
                        type_outcome(args, found_by(search.answer(answer))),
                    ),
                )
            },
            (
                CommandView::Searching { name, args, redirections, search },
                Reply::Probe(answer),
            ) => if search.answer(answer).probe() is Some {
                CommandView::Searching { name, args, redirections, search: search.answer(answer) }
            } else {
                match external_dispatch(
                    name,
                    found_by(search.answer(answer)),
                    args,
                    redirections,
                ) {
                    Ok(run) => CommandView::Running(run),
                    Err(result) => CommandView::Done(result),
                }
            },
            (CommandView::Running(run), Reply::Exec(event)) => CommandView::running(
                run.advance(event),
            ),
            _ => self,
        }
    }
}

/// What the operating system would answer a command, as far as that does
/// not depend on a program that runs.
pub struct Environment {
    /// The file system and `PATH`.
    pub world: World,
    /// The working directory, or why it cannot be told.
    pub current_dir: Result<String, String>,
    /// The value of `HOME`.
    pub home: Option<String>,
    /// What comes of changing the working directory to a path.
    pub change_dir: spec_fn(Seq<char>) -> Result<(), IoFailure>,
}

impl Environment {
    /// The reply to a request.  What comes of an action of a run is not for
    /// the environment to say; the reply given for it is an arbitrary one.
    pub open spec fn reply(self, request: RequestView) -> Reply {
        match request {
            RequestView::CurrentDir => Reply::CurrentDir(self.current_dir),
            RequestView::Home => Reply::Home(self.home),
            RequestView::ChangeDir(target) => Reply::Changed((self.change_dir)(target)),
            RequestView::Probe(probe) => Reply::Probe(self.world.answer(probe)),
            RequestView::Exec(_) => Reply::Exec(ExecEvent::Done),
        }
    }

    /// What a command comes to in this environment before any program runs.
    ///
    /// `exit` ends the shell with its exit code.  `echo` prints its
    /// arguments, `pwd` the working directory.  `cd` changes to the directory
    /// that its argument stands for.  `type` says where its argument lies.  Any
    /// other command is the program of that name as the environment locates
    /// it, which is run, or is not found.
    pub open spec fn outcome(
        self,
        name: Seq<char>,
        args: Seq<Seq<char>>,
        redirections: RedirectionSpec,
    ) -> CommandView {
        if name == "exit"@ {
            CommandView::Exit(exit_code(args))
        } else if name == "echo"@ {
            CommandView::Done(CommandResultView::Output(echo_text(args)))
        } else if name == "pwd"@ {
            CommandView::Done(CommandResultView::of_builtin(pwd_outcome(result_text(self.current_dir))))
        } else if name == "cd"@ {
            match cd_destination(args, found_text(self.home)) {
                Ok(target) => CommandView::Done(
                    CommandResultView::of_builtin(
                        change_dir_outcome(target, change_view((self.change_dir)(target))),
                    ),
                ),
                Err(message) => CommandView::Done(CommandResultView::Failure(message)),
            }
        } else if name == "type"@ {
            CommandView::Done(
                CommandResultView::of_builtin(
                    type_outcome(
                        args,
                        match type_lookup(args) {
                            Some(wanted) => self.world.locate(wanted),
                            None => None,
                        },
                    ),
                ),
            )
        } else {
            match self.world.locate(name) {
                Some(path) => CommandView::Running(ExecView::start(name, path, args, redirections)),
                None => CommandView::Done(CommandResultView::Failure(name + ": command not found"@)),
            }
        }
    }
}

impl CommandView {
    /// Whether the command waits for something that the environment can
    /// tell or do.
    pub open spec fn asks_environment(self) -> bool {
        match self {
            CommandView::Exit(_) | CommandView::Done(_) | CommandView::Running(_) => false,
            _ => true,
        }
    }

    /// The command after the environment has answered up to `steps` of its
    /// requests; it stops where a program starts to run.
    pub open spec fn run(self, environment: Environment, steps: nat) -> CommandView
        decreases steps,
    {
        if steps == 0 || !self.asks_environment() {
            self
        } else {
            self.reply(environment.reply(self.step()->Ask_0)).run(
                environment,
                (steps - 1) as nat,
            )
        }
    }

    /// An upper bound on the number of requests that the environment still
    /// has to answer.
    pub open spec fn requests_left(self, environment: Environment) -> nat {
        match self {
            CommandView::Pwd => 1,
            CommandView::Cd { .. } => 2,
            CommandView::Changing { .. } => 1,
            CommandView::Type { search, .. } => search.probes_left(environment.world),
            CommandView::Searching { search, .. } => search.probes_left(environment.world),
            _ => 0,
        }
    }

    /// What the command will come to in the environment, seen from where it
    /// stands.
    pub open spec fn will_be(self, environment: Environment) -> CommandView {
        match self {
            CommandView::Pwd => CommandView::Done(
                CommandResultView::of_builtin(pwd_outcome(result_text(environment.current_dir))),
            ),
            CommandView::Cd { args } => match cd_destination(args, found_text(environment.home)) {
                Ok(target) => CommandView::Done(
                    CommandResultView::of_builtin(
                        change_dir_outcome(target, change_view((environment.change_dir)(target))),
                    ),
                ),
                Err(message) => CommandView::Done(CommandResultView::Failure(message)),
            },
            CommandView::Changing { target } => CommandView::Done(
                CommandResultView::of_builtin(
                    change_dir_outcome(target, change_view((environment.change_dir)(target))),
                ),
            ),
            CommandView::Type { args, search } => CommandView::Done(
                CommandResultView::of_builtin(
                    type_outcome(args, search.will_find(environment.world)),
                ),
            ),
            CommandView::Searching { name, args, redirections, search } => match external_dispatch(
                name,
                search.will_find(environment.world),
                args,
                redirections,
            ) {
                Ok(run) => CommandView::Running(run),
                Err(result) => CommandView::Done(result),
            },
            _ => self,
        }
    }

    /// Whether the messages that the command holds say something.
    pub open spec fn has_messages(self) -> bool {
        match self {
            CommandView::Done(result) => result.has_message(),
            CommandView::Running(run) => run.result.has_message(),
            _ => true,
        }
    }
}

/// The builtins are the commands that are not searched as programs, and
/// no other command is.
pub proof fn lemma_builtins_are_not_searched(
    name: Seq<char>,
    args: Seq<Seq<char>>,
    redirections: RedirectionSpec,
)
    ensures
        is_builtin_name(name) <==> !(CommandView::start(name, args, redirections) is Searching),
{
}

/// A reply of the environment brings a command one request nearer its
/// end and leaves what it will come to as it was.
pub proof fn lemma_reply_keeps_course(command: CommandView, environment: Environment)
    requires
        command.well_formed(),
        command.asks_environment(),
    ensures
        ({
            let next = command.reply(environment.reply(command.step()->Ask_0));
            &&& next.well_formed()
            &&& next.will_be(environment) == command.will_be(environment)
            &&& next.requests_left(environment) < command.requests_left(environment)
        }),
{
    match command {
        CommandView::Type { args, search } => {
            lemma_answer_keeps_course(search, environment.world);
        },
        CommandView::Searching { name, args, redirections, search } => {
            lemma_answer_keeps_course(search, environment.world);
        },
        _ => {},
    }
}

/// A command that the environment answers comes to what it will be.
pub proof fn lemma_run_reaches_outcome(
    command: CommandView,
    environment: Environment,
    steps: nat,
)
    requires
        command.well_formed(),
        steps >= command.requests_left(environment),
    ensures
        command.run(environment, steps) == command.will_be(environment),
    decreases steps,
{
    if steps > 0 && command.asks_environment() {
        lemma_reply_keeps_course(command, environment);
        lemma_run_reaches_outcome(
            command.reply(environment.reply(command.step()->Ask_0)),
            environment,
            (steps - 1) as nat,
        );
    }
}

/// What a command comes to: started and answered by the environment, it
/// ends as the environment has it, or runs the program that the environment
/// locates.
pub proof fn lemma_dispatch_command(
    name: Seq<char>,
    args: Seq<Seq<char>>,
    redirections: RedirectionSpec,
    environment: Environment,
)
    ensures
        ({
            let command = CommandView::start(name, args, redirections);
            command.run(environment, command.requests_left(environment)) == environment.outcome(
                name,
                args,
                redirections,
            )
        }),
{
    let command = CommandView::start(name, args, redirections);
    lemma_run_reaches_outcome(command, environment, command.requests_left(environment));
}

/// No message of a command is empty: not at its start, and not after any
/// reply.
pub proof fn lemma_command_messages_not_empty(
    name: Seq<char>,
    args: Seq<Seq<char>>,
    redirections: RedirectionSpec,
    command: CommandView,
    reply: Reply,
)
    requires
        command.has_messages(),
    ensures
        CommandView::start(name, args, redirections).has_messages(),
        command.reply(reply).has_messages(),
{
    reveal_strlit(": command not found");
    lemma_builtin_messages_not_empty(args, None, None, Ok(Seq::empty()), Seq::empty(), Ok(()));
    match (command, reply) {
        (CommandView::Pwd, Reply::CurrentDir(current_dir)) => {
            lemma_builtin_messages_not_empty(
                args,
                None,
                None,
                result_text(current_dir),
                Seq::empty(),
                Ok(()),
            );
        },
        (CommandView::Cd { args }, Reply::Home(home)) => {
            lemma_builtin_messages_not_empty(
                args,
                None,
                found_text(home),
                Ok(Seq::empty()),
                Seq::empty(),
                Ok(()),
            );
        },
        (CommandView::Changing { target }, Reply::Changed(changed)) => {
            lemma_builtin_messages_not_empty(
                args,
                None,
                None,
                Ok(Seq::empty()),
                target,
                change_view(changed),
            );
        },
        (CommandView::Type { args, search }, Reply::Probe(answer)) => {
            lemma_builtin_messages_not_empty(
                args,
                found_by(search.answer(answer)),
                None,
                Ok(Seq::empty()),
                Seq::empty(),
                Ok(()),
            );
        },
        (CommandView::Running(run), Reply::Exec(event)) => {
            lemma_failures_have_messages(run, event);
        },
        _ => {},
    }
}

/// Where a command stands, with what it needs to go on.
#[derive(Debug)]
enum State {
    Exit(i32),
    Done(CommandResult),
    Pwd,
    Cd { args: Vec<String> },
    Changing { target: String },
    Type { args: Vec<String>, search: PathSearch },
    Searching { name: String, args: Vec<String>, redirections: Redirections, search: PathSearch },
    Running(ExternalCommand),
}

/// A command on its way.
#[derive(Debug)]
pub struct Command {
    state: State,
}

impl View for Command {
    type V = CommandView;

    closed spec fn view(&self) -> CommandView {
        match self.state {
            State::Exit(code) => CommandView::Exit(code as int),
            State::Done(result) => CommandView::Done(result@),
            State::Pwd => CommandView::Pwd,
            State::Cd { args } => CommandView::Cd { args: args.deep_view() },
            State::Changing { target } => CommandView::Changing { target: target@ },
            State::Type { args, search } => CommandView::Type {
                args: args.deep_view(),
                search: search@,
            },
            State::Searching { name, args, redirections, search } => CommandView::Searching {
                name: name@,
                args: args.deep_view(),
                redirections: redirections@,
                search: search@,
            },
            State::Running(run) => CommandView::Running(run@),
        }
    }
}

/// Goes on with a program after the search for it: `found` is the path
/// that the search ended with.
pub fn dispatch_external(
    command_name: &str,
    found: Option<&str>,
    command_args: &[String],
    redirections: &Redirections,
) -> (result: Result<ExternalCommand, CommandResult>)
    ensures
        external_dispatch(
            command_name@,
            optional_text(found),
            command_args.deep_view(),
            redirections@,
        ) == match result {
            Ok(run) => Ok::<ExecView, CommandResultView>(run@),
            Err(failed) => Err(failed@),
        },
        result matches Ok(run) ==> run@.well_formed(),
{
    match found {
        Some(full_path) => Ok(
            execute_external_command(command_name, full_path, command_args, redirections),
        ),
        None => {
            let mut message = command_name.to_string();
            message.append(": command not found");
            Err(CommandResult::Failure(message))
        },
    }
}

/// The text of an optional string.
fn as_text(text: &Option<String>) -> (slice: Option<&str>)
    ensures
        optional_text(slice) == found_text(*text),
{
    match text {
        Some(text) => Some(text.as_str()),
        None => None,
    }
}

impl Command {
    /// Every command is sound.
    #[verifier::type_invariant]
    spec fn well_formed(self) -> bool {
        self@.well_formed()
    }

    /// Where the command stands.
    pub fn step(&self) -> (step: CommandStep)
        ensures
            step@ == self@.step(),
            self@.well_formed(),
    {
        proof {
            use_type_invariant(self);
        }
        match &self.state {
            State::Exit(code) => CommandStep::Exit(*code),
            State::Done(result) => CommandStep::Done(result.clone()),
            State::Pwd => CommandStep::Ask(Request::CurrentDir),
            State::Cd { .. } => CommandStep::Ask(Request::Home),
            State::Changing { target } => CommandStep::Ask(Request::ChangeDir(target.clone())),
            State::Type { search, .. } => match search.step() {
                Step::Ask(probe) => CommandStep::Ask(Request::Probe(probe)),
                Step::Done(_) => unreached(),
            },
            State::Searching { search, .. } => match search.step() {
                Step::Ask(probe) => CommandStep::Ask(Request::Probe(probe)),
                Step::Done(_) => unreached(),
            },
            State::Running(run) => CommandStep::Ask(Request::Exec(run.action())),
        }
    }

    /// The command after a run has taken a step.
    fn running(run: ExternalCommand) -> (next: Command)
        requires
            run@.well_formed(),
        ensures
            next@ == CommandView::running(run@),
    {
        match run.action() {
            ExecAction::Finish(result) => Command { state: State::Done(result) },
            _ => Command { state: State::Running(run) },
        }
    }

    /// Goes on with the command after a reply.
    pub fn reply(self, reply: Reply) -> (next: Command)
        ensures
            next@ == self@.reply(reply),
            next@.well_formed(),
    {
        proof {
            use_type_invariant(&self);
        }
        match (self.state, reply) {
            (State::Pwd, Reply::CurrentDir(current_dir)) => Command {
                state: State::Done(CommandResult::from_builtin(handle_pwd(&[], current_dir))),
            },
            (State::Cd { args }, Reply::Home(home)) => {
                match handle_cd(args.as_slice(), as_text(&home)) {
                    Ok(target) => Command { state: State::Changing { target } },
                    Err(message) => Command { state: State::Done(CommandResult::Failure(message)) },
                }
            },
            (State::Changing { target }, Reply::Changed(changed)) => Command {
                state: State::Done(
                    CommandResult::from_builtin(change_dir(target.as_str(), changed)),
                ),
            },
            (State::Type { args, search }, Reply::Probe(answer)) => {
                let search = search.answer(answer);
                match search.step() {
                    Step::Ask(_) => Command { state: State::Type { args, search } },
                    Step::Done(found) => Command {
                        state: State::Done(
                            CommandResult::from_builtin(
                                handle_type(args.as_slice(), as_text(&found)),
                            ),
                        ),
                    },
                }
            },
            (State::Searching { name, args, redirections, search }, Reply::Probe(answer)) => {
                let search = search.answer(answer);
                match search.step() {
                    Step::Ask(_) => Command {
                        state: State::Searching { name, args, redirections, search },
                    },
                    Step::Done(found) => match dispatch_external(
                        name.as_str(),
                        as_text(&found),
                        args.as_slice(),
                        &redirections,
                    ) {
                        Ok(run) => Command { state: State::Running(run) },
                        Err(result) => Command { state: State::Done(result) },
                    },
                }
            },
            (State::Running(run), Reply::Exec(event)) => Command::running(run.advance(event)),
            (state, _) => Command { state },
        }
    }
}

/// Starts a command.
pub fn dispatch_command(
    command_name: &str,
    command_args: &[String],
    redirections: &Redirections,
) -> (command: Command)
    ensures
        command@ == CommandView::start(command_name@, command_args.deep_view(), redirections@),
        command@.well_formed(),
{
    if command_name.eq("exit") {
        Command { state: State::Exit(handle_exit(command_args)) }
    } else if command_name.eq("echo") {
        Command { state: State::Done(CommandResult::from_builtin(handle_echo(command_args))) }
    } else if command_name.eq("pwd") {
        Command { state: State::Pwd }
    } else if command_name.eq("cd") {
        Command { state: State::Cd { args: copy_strings(command_args) } }
    } else if command_name.eq("type") {
        if command_args.len() == 1 && !is_builtin(command_args[0].as_str()) {
            Command {
                state: State::Type {
                    args: copy_strings(command_args),
                    search: find_exec_in_path(command_args[0].as_str()),
                },
            }
        } else {
            Command {
                state: State::Done(CommandResult::from_builtin(handle_type(command_args, None))),
            }
        }
    } else {
        Command {
            state: State::Searching {
                name: command_name.to_string(),
                args: copy_strings(command_args),
                redirections: redirections.clone(),
                search: find_exec_in_path(command_name),
            },
        }
    }
}

} // verus!
