use codecrafters_shell::command::{CommandResult, FailureKind, IoFailure};
use codecrafters_shell::dispatch::{
    dispatch_command, dispatch_external, Command, CommandStep, Reply, Request,
};
use codecrafters_shell::exec::{Answer, DirEntry, DirListing, FileMeta, Probe};
use codecrafters_shell::external::{ExecAction, ExecEvent};
use codecrafters_shell::parser::parse_tokens;
use codecrafters_shell::redirect::{parse_redirections, Redirections};
use codecrafters_shell::sink::{handle_command_result, SinkAction};

fn strings(items: &[&str]) -> Vec<String> {
    items.iter().map(|s| s.to_string()).collect()
}

fn plain() -> Redirections {
    Redirections { stdout_redirect: None, stderr_redirect: None }
}

fn start(name: &str, args: &[&str]) -> Command {
    dispatch_command(name, &strings(args), &plain())
}

fn done(result: CommandResult) -> CommandStep {
    CommandStep::Done(result)
}

fn output(text: &str) -> CommandStep {
    done(CommandResult::Output(text.to_string()))
}

fn failure(text: &str) -> CommandStep {
    done(CommandResult::Failure(text.to_string()))
}

fn executable() -> Option<FileMeta> {
    Some(FileMeta { is_file: true, mode: 0o755 })
}

fn holding(name: &str, path: &str) -> Reply {
    Reply::Probe(Answer::Directory(DirListing::Entries(vec![Some(DirEntry {
        file_name: name.to_string(),
        path: path.to_string(),
        metadata: executable(),
    })])))
}

fn path_variable(value: &str) -> Reply {
    Reply::Probe(Answer::PathVariable(Some(value.to_string())))
}

#[test]
fn echo_runs_at_once() {
    assert_eq!(start("echo", &["a", "b"]).step(), output("a b\r\n"));
    assert_eq!(start("echo", &[]).step(), output("\r\n"));
}

#[test]
fn exit_carries_its_code() {
    assert_eq!(start("exit", &[]).step(), CommandStep::Exit(0));
    assert_eq!(start("exit", &["17"]).step(), CommandStep::Exit(17));
    assert_eq!(start("exit", &["x"]).step(), CommandStep::Exit(0));
    assert_eq!(
        start("exit", &["4"]).reply(Reply::Home(None)).step(),
        CommandStep::Exit(4)
    );
}

#[test]
fn pwd_asks_for_the_working_directory() {
    let command = start("pwd", &["ignored"]);
    assert_eq!(command.step(), CommandStep::Ask(Request::CurrentDir));
    let command = command.reply(Reply::CurrentDir(Ok("/tmp".to_string())));
    assert_eq!(command.step(), output("/tmp\r\n"));
    let failed = start("pwd", &[]).reply(Reply::CurrentDir(Err("gone".to_string())));
    assert_eq!(failed.step(), failure("pwd: error getting current directory: gone"));
}

#[test]
fn cd_asks_for_home_and_changes_the_directory() {
    let command = start("cd", &["~/src"]);
    assert_eq!(command.step(), CommandStep::Ask(Request::Home));
    let command = command.reply(Reply::Home(Some("/home/user".to_string())));
    assert_eq!(command.step(), CommandStep::Ask(Request::ChangeDir("/home/user/src".to_string())));
    let command = command.reply(Reply::Changed(Ok(())));
    assert_eq!(command.step(), done(CommandResult::NoOutput));
}

#[test]
fn cd_ends_with_a_message_when_it_cannot_go_on() {
    let command = start("cd", &["a", "b"]).reply(Reply::Home(Some("/h".to_string())));
    assert_eq!(command.step(), failure("cd: too many arguments"));
    let command = start("cd", &[]).reply(Reply::Home(None));
    assert_eq!(command.step(), failure("cd: HOME environment variable not set"));
    let command = start("cd", &["/nowhere"])
        .reply(Reply::Home(None))
        .reply(Reply::Changed(Err(IoFailure {
            kind: FailureKind::NotFound,
            text: "os error 2".to_string(),
        })));
    assert_eq!(command.step(), failure("cd: /nowhere: No such file or directory"));
}

#[test]
fn type_answers_at_once_for_builtins_and_argument_errors() {
    assert_eq!(start("type", &["cd"]).step(), output("cd is a shell builtin\r\n"));
    assert_eq!(start("type", &[]).step(), failure("type: missing argument"));
    assert_eq!(start("type", &["a", "b"]).step(), failure("type: too many arguments"));
}

#[test]
fn type_searches_other_names() {
    let command = start("type", &["ls"]);
    assert_eq!(command.step(), CommandStep::Ask(Request::Probe(Probe::PathVariable)));
    let command = command.reply(path_variable("/usr/bin:/bin"));
    assert_eq!(
        command.step(),
        CommandStep::Ask(Request::Probe(Probe::Directory("/usr/bin".to_string())))
    );
    let command = command.reply(Reply::Probe(Answer::Directory(DirListing::NotFound)));
    assert_eq!(
        command.step(),
        CommandStep::Ask(Request::Probe(Probe::Directory("/bin".to_string())))
    );
    let command = command.reply(holding("ls", "/bin/ls"));
    assert_eq!(command.step(), output("ls is /bin/ls\r\n"));

    let missing = start("type", &["nope"]).reply(Reply::Probe(Answer::PathVariable(None)));
    assert_eq!(missing.step(), output("nope: not found\r\n"));

    let direct = start("type", &["./ls"]);
    assert_eq!(
        direct.step(),
        CommandStep::Ask(Request::Probe(Probe::Metadata("./ls".to_string())))
    );
    let direct = direct.reply(Reply::Probe(Answer::Metadata(executable())));
    assert_eq!(direct.step(), output("./ls is ./ls\r\n"));
}

#[test]
fn program_that_is_not_found_is_a_failure() {
    let command = start("frobnicate", &[]);
    assert_eq!(command.step(), CommandStep::Ask(Request::Probe(Probe::PathVariable)));
    let command = command.reply(path_variable("/bin"));
    let command = command.reply(Reply::Probe(Answer::Directory(DirListing::Entries(vec![]))));
    assert_eq!(command.step(), failure("frobnicate: command not found"));
    for name in ["Echo", "help", "/no/such"] {
        let command = start(name, &[])
            .reply(Reply::Probe(Answer::PathVariable(None)))
            .reply(Reply::Probe(Answer::Metadata(None)));
        assert_eq!(command.step(), failure(&format!("{}: command not found", name)));
    }
}

#[test]
fn program_that_is_found_is_run_to_its_end() {
    let command = start("ls", &["-a"]).reply(path_variable("/bin")).reply(holding("ls", "/bin/ls"));
    match command.step() {
        CommandStep::Ask(Request::Exec(ExecAction::Spawn(request))) => {
            assert_eq!(request.program, "/bin/ls");
            assert_eq!(request.arg0, "ls");
            assert_eq!(request.args, vec!["-a"]);
        }
        other => panic!("unexpected step {:?}", other),
    }
    let command = command.reply(Reply::Exec(ExecEvent::Spawned));
    assert_eq!(command.step(), CommandStep::Ask(Request::Exec(ExecAction::ReadOutput)));
    let command = command.reply(Reply::Exec(ExecEvent::OutputRead {
        text: "x\n".to_string(),
        error: None,
    }));
    assert_eq!(command.step(), CommandStep::Ask(Request::Exec(ExecAction::Wait)));
    let command = command.reply(Reply::Exec(ExecEvent::Exited { success: false }));
    assert_eq!(command.step(), CommandStep::Ask(Request::Exec(ExecAction::CloseFiles)));
    let command = command.reply(Reply::Exec(ExecEvent::Done));
    assert_eq!(
        command.step(),
        CommandStep::Ask(Request::Exec(ExecAction::Print("x\n".to_string())))
    );
    let command = command.reply(Reply::Exec(ExecEvent::Done));
    assert_eq!(command.step(), done(CommandResult::SilentFailure));
    let command = command.reply(Reply::Exec(ExecEvent::Done));
    assert_eq!(command.step(), done(CommandResult::SilentFailure));
}

#[test]
fn reply_to_another_request_changes_nothing() {
    let command = start("pwd", &[])
        .reply(Reply::Home(None))
        .reply(Reply::Changed(Ok(())))
        .reply(Reply::Exec(ExecEvent::Done))
        .reply(Reply::Probe(Answer::PathVariable(None)));
    assert_eq!(command.step(), CommandStep::Ask(Request::CurrentDir));
    let command = start("ls", &[]).reply(Reply::CurrentDir(Ok("/".to_string())));
    assert_eq!(command.step(), CommandStep::Ask(Request::Probe(Probe::PathVariable)));
}

#[test]
fn external_dispatch_starts_the_run() {
    match dispatch_external("ls", Some("/bin/ls"), &strings(&["-a"]), &plain()) {
        Ok(run) => assert!(matches!(run.action(), ExecAction::Spawn(_))),
        Err(result) => panic!("unexpected result {:?}", result),
    }
    match dispatch_external("frobnicate", None, &[], &plain()) {
        Err(result) => assert_eq!(
            result,
            CommandResult::Failure("frobnicate: command not found".to_string())
        ),
        Ok(run) => panic!("unexpected run {:?}", run),
    }
}

#[test]
fn a_line_runs_from_text_to_actions() {
    let tokens = parse_tokens("echo 'hello  world' \"a\\\"b\" > out.txt 2>> err.txt").unwrap();
    let (name, rest) = tokens.split_first().unwrap();
    let (args, redirections) = parse_redirections(rest);
    assert_eq!(args, vec!["hello  world", "a\"b"]);
    let result = match dispatch_command(name, &args, &redirections).step() {
        CommandStep::Done(result) => result,
        other => panic!("unexpected step {:?}", other),
    };
    let actions = handle_command_result(result, &redirections);
    assert_eq!(actions.len(), 2);
    match &actions[0] {
        SinkAction::WriteFile { request, text, .. } => {
            assert_eq!(request.filename, "out.txt");
            assert!(request.truncate);
            assert_eq!(text, "hello  world a\"b\r\n");
        }
        other => panic!("unexpected action {:?}", other),
    }
    match &actions[1] {
        SinkAction::Touch(request) => {
            assert_eq!(request.filename, "err.txt");
            assert!(request.append);
            assert!(!request.truncate);
        }
        other => panic!("unexpected action {:?}", other),
    }
}
