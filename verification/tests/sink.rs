use codecrafters_shell::command::CommandResult;
use codecrafters_shell::redirect::{
    OpenRequest, RedirectFile, RedirectionMode, Redirections, Stream, WriteFailure,
};
use codecrafters_shell::sink::{
    create_redirect_file, ensure_redirect_file_exists, ensure_redirect_files_exist,
    handle_command_result, report_failure, write_stderr, write_stdout, SinkAction,
};

fn target(filename: &str, mode: RedirectionMode) -> Option<RedirectFile> {
    Some(RedirectFile { filename: filename.to_string(), mode })
}

fn redirections(stdout: Option<RedirectFile>, stderr: Option<RedirectFile>) -> Redirections {
    Redirections { stdout_redirect: stdout, stderr_redirect: stderr }
}

fn request(filename: &str, truncate: bool, append: bool, refuse_directory: bool) -> OpenRequest {
    OpenRequest { filename: filename.to_string(), truncate, append, refuse_directory }
}

fn both() -> Redirections {
    redirections(
        target("out.txt", RedirectionMode::Append),
        target("err.txt", RedirectionMode::Overwrite),
    )
}

#[test]
fn redirect_file_is_opened_as_its_mode_says() {
    assert_eq!(
        create_redirect_file("out.txt", RedirectionMode::Overwrite),
        request("out.txt", true, false, true)
    );
    assert_eq!(
        create_redirect_file("out.txt", RedirectionMode::Append),
        request("out.txt", false, true, true)
    );
    assert_eq!(
        ensure_redirect_file_exists("f", RedirectionMode::Append),
        SinkAction::Touch(request("f", false, true, true))
    );
}

#[test]
fn output_goes_to_the_terminal_without_redirection() {
    let none = redirections(None, None);
    assert_eq!(write_stdout("hi\r\n", &none), SinkAction::PrintStdout("hi\r\n".to_string()));
    assert_eq!(
        handle_command_result(CommandResult::Output("hi\r\n".to_string()), &none),
        vec![SinkAction::PrintStdout("hi\r\n".to_string())]
    );
}

#[test]
fn output_goes_to_the_file_and_the_error_file_is_made() {
    assert_eq!(
        handle_command_result(CommandResult::Output("hi\r\n".to_string()), &both()),
        vec![
            SinkAction::WriteFile {
                request: request("out.txt", false, true, true),
                text: "hi\r\n".to_string(),
                stream: Stream::Stdout,
                fallback: None,
            },
            SinkAction::Touch(request("err.txt", true, false, true)),
        ]
    );
    let only_err = redirections(None, target("err.txt", RedirectionMode::Append));
    assert_eq!(
        handle_command_result(CommandResult::Output("x".to_string()), &only_err),
        vec![
            SinkAction::PrintStdout("x".to_string()),
            SinkAction::Touch(request("err.txt", false, true, true)),
        ]
    );
}

#[test]
fn no_output_leaves_the_output_file_alone() {
    assert_eq!(
        handle_command_result(CommandResult::NoOutput, &both()),
        vec![SinkAction::Touch(request("err.txt", true, false, true))]
    );
    let only_out = redirections(target("out.txt", RedirectionMode::Overwrite), None);
    assert_eq!(handle_command_result(CommandResult::NoOutput, &only_out), vec![]);
    assert_eq!(handle_command_result(CommandResult::NoOutput, &redirections(None, None)), vec![]);
}

#[test]
fn failure_goes_to_the_terminal_and_the_output_file_is_made() {
    let only_out = redirections(target("new.txt", RedirectionMode::Overwrite), None);
    assert_eq!(
        handle_command_result(CommandResult::Failure("cd: too many arguments".to_string()), &only_out),
        vec![
            SinkAction::PrintStderr("cd: too many arguments\r\n".to_string()),
            SinkAction::Touch(request("new.txt", true, false, true)),
        ]
    );
    assert_eq!(
        handle_command_result(
            CommandResult::Failure("x: command not found".to_string()),
            &redirections(None, None)
        ),
        vec![SinkAction::PrintStderr("x: command not found\r\n".to_string())]
    );
}

#[test]
fn failure_goes_to_the_error_file() {
    assert_eq!(
        handle_command_result(CommandResult::Failure("oops".to_string()), &both()),
        vec![
            SinkAction::WriteFile {
                request: request("err.txt", true, false, false),
                text: "oops\n".to_string(),
                stream: Stream::Stderr,
                fallback: Some("oops\r\n".to_string()),
            },
            SinkAction::Touch(request("out.txt", false, true, true)),
        ]
    );
}

#[test]
fn failure_is_appended_to_an_appending_error_file() {
    let appending = redirections(None, target("log", RedirectionMode::Append));
    let expected = SinkAction::WriteFile {
        request: request("log", false, true, false),
        text: "oops\n".to_string(),
        stream: Stream::Stderr,
        fallback: Some("oops\r\n".to_string()),
    };
    assert_eq!(write_stderr("oops", &appending), expected);
    assert_eq!(
        handle_command_result(CommandResult::Failure("oops".to_string()), &appending),
        vec![expected]
    );
    let overwriting = redirections(None, target("log", RedirectionMode::Overwrite));
    assert_eq!(
        write_stderr("oops", &overwriting),
        SinkAction::WriteFile {
            request: request("log", true, false, false),
            text: "oops\n".to_string(),
            stream: Stream::Stderr,
            fallback: Some("oops\r\n".to_string()),
        }
    );
}

#[test]
fn empty_failure_message_is_still_delivered() {
    assert_eq!(
        handle_command_result(CommandResult::Failure(String::new()), &redirections(None, None)),
        vec![SinkAction::PrintStderr("\r\n".to_string())]
    );
}

#[test]
fn silent_failure_delivers_nothing() {
    assert_eq!(handle_command_result(CommandResult::SilentFailure, &both()), vec![]);
    assert_eq!(
        handle_command_result(CommandResult::SilentFailure, &redirections(None, None)),
        vec![]
    );
}

#[test]
fn output_file_that_cannot_be_opened_is_reported() {
    let action = write_stdout("text", &both());
    assert_eq!(
        report_failure(&action, &WriteFailure::Open("Permission denied (os error 13)".to_string())),
        vec![SinkAction::PrintStderr(
            "shell: failed to open stdout redirect file 'out.txt': Permission denied (os error 13)\r\n"
                .to_string()
        )]
    );
    assert_eq!(
        report_failure(&action, &WriteFailure::IsDirectory),
        vec![SinkAction::PrintStderr(
            "shell: failed to open stdout redirect file 'out.txt': 'out.txt' is a directory\r\n"
                .to_string()
        )]
    );
    assert_eq!(
        report_failure(&action, &WriteFailure::Write("disk full".to_string())),
        vec![SinkAction::PrintStderr(
            "shell: error writing built-in stdout to 'out.txt': disk full\r\n".to_string()
        )]
    );
}

#[test]
fn error_file_that_cannot_be_opened_sends_the_message_to_the_terminal() {
    let action = write_stderr("oops", &both());
    assert_eq!(
        report_failure(&action, &WriteFailure::Open("denied".to_string())),
        vec![
            SinkAction::PrintStderr(
                "shell: failed to open stderr redirect file 'err.txt': denied\r\n".to_string()
            ),
            SinkAction::PrintStderr("oops\r\n".to_string()),
        ]
    );
    assert_eq!(
        report_failure(&action, &WriteFailure::Write("disk full".to_string())),
        vec![SinkAction::PrintStderr(
            "shell: error writing error to stderr redirect file 'err.txt': disk full\r\n"
                .to_string()
        )]
    );
}

#[test]
fn other_failures_are_passed_over() {
    let touch = ensure_redirect_file_exists("f", RedirectionMode::Overwrite);
    assert_eq!(report_failure(&touch, &WriteFailure::Open("denied".to_string())), vec![]);
    assert_eq!(report_failure(&touch, &WriteFailure::IsDirectory), vec![]);
    let print = SinkAction::PrintStdout("x".to_string());
    assert_eq!(report_failure(&print, &WriteFailure::Write("gone".to_string())), vec![]);
}

#[test]
fn files_of_a_command_without_output() {
    assert_eq!(
        ensure_redirect_files_exist(&both()),
        vec![SinkAction::Touch(request("err.txt", true, false, true))]
    );
    let only_out = redirections(target("out.txt", RedirectionMode::Overwrite), None);
    assert_eq!(ensure_redirect_files_exist(&only_out), vec![]);
}

#[test]
fn failures_are_worded_for_their_file() {
    assert_eq!(WriteFailure::IsDirectory.describe("d"), "'d' is a directory");
    assert_eq!(WriteFailure::Open("denied".to_string()).describe("d"), "denied");
    assert_eq!(WriteFailure::Write("full".to_string()).describe("d"), "full");
}
