use codecrafters_shell::command::CommandResult;
use codecrafters_shell::dispatch::{CommandStep, Request};
use codecrafters_shell::exec::Probe;
use codecrafters_shell::parser::{ParseError, QuoteKind};
use codecrafters_shell::redirect::RedirectionMode;
use codecrafters_shell::shell::{interpret, interpret_line, LineAction};

#[test]
fn empty_lines_are_passed_over() {
    assert!(matches!(interpret_line(""), LineAction::Skip));
    assert!(matches!(interpret_line("   \t "), LineAction::Skip));
    assert!(matches!(interpret_line("\r\n"), LineAction::Skip));
    assert!(matches!(interpret_line("''"), LineAction::Skip));
    assert!(matches!(interpret_line(" \"\" "), LineAction::Skip));
    assert!(matches!(interpret(""), LineAction::Skip));
}

#[test]
fn open_quote_is_reported() {
    match interpret_line("echo \"hello") {
        LineAction::Report(text) => {
            assert_eq!(text, "shell: parse error: Unterminated double quote in arguments\r\n")
        }
        other => panic!("unexpected action {:?}", other),
    }
    match interpret("echo 'hello") {
        LineAction::Report(text) => {
            assert_eq!(text, "shell: parse error: Unterminated single quote in arguments\r\n")
        }
        other => panic!("unexpected action {:?}", other),
    }
}

#[test]
fn error_messages_name_the_quote() {
    assert_eq!(
        ParseError::UnterminatedQuote(QuoteKind::Double).message(),
        "Unterminated double quote in arguments"
    );
    assert_eq!(
        ParseError::UnterminatedQuote(QuoteKind::Single).message(),
        "Unterminated single quote in arguments"
    );
}

#[test]
fn command_is_split_from_its_arguments_and_redirections() {
    match interpret_line("  echo one 'two  three' > out.txt 2>> err.txt \n") {
        LineAction::Run { command_name, command_args, redirections, command } => {
            assert_eq!(command_name, "echo");
            assert_eq!(command_args, vec!["one", "two  three"]);
            let stdout = redirections.stdout_redirect.unwrap();
            assert_eq!(stdout.filename, "out.txt");
            assert_eq!(stdout.mode, RedirectionMode::Overwrite);
            let stderr = redirections.stderr_redirect.unwrap();
            assert_eq!(stderr.filename, "err.txt");
            assert_eq!(stderr.mode, RedirectionMode::Append);
            assert_eq!(
                command.step(),
                CommandStep::Done(CommandResult::Output("one two  three\r\n".to_string()))
            );
        }
        other => panic!("unexpected action {:?}", other),
    }
}

#[test]
fn command_name_is_never_a_redirection() {
    match interpret_line("> out.txt") {
        LineAction::Run { command_name, command_args, redirections, command } => {
            assert_eq!(command_name, ">");
            assert_eq!(command_args, vec!["out.txt"]);
            assert!(redirections.stdout_redirect.is_none());
            assert_eq!(command.step(), CommandStep::Ask(Request::Probe(Probe::PathVariable)));
        }
        other => panic!("unexpected action {:?}", other),
    }
    match interpret_line("2> err.txt > out.txt") {
        LineAction::Run { command_name, command_args, redirections, .. } => {
            assert_eq!(command_name, "2>");
            assert_eq!(command_args, vec!["err.txt"]);
            assert_eq!(redirections.stdout_redirect.unwrap().filename, "out.txt");
            assert!(redirections.stderr_redirect.is_none());
        }
        other => panic!("unexpected action {:?}", other),
    }
}

#[test]
fn exit_is_dispatched_with_its_code() {
    match interpret_line("exit 3") {
        LineAction::Run { command, .. } => assert_eq!(command.step(), CommandStep::Exit(3)),
        other => panic!("unexpected action {:?}", other),
    }
}

#[test]
fn white_space_inside_the_line_is_not_trimmed() {
    match interpret("echo\u{a0}x") {
        LineAction::Run { command_name, command_args, .. } => {
            assert_eq!(command_name, "echo\u{a0}x");
            assert!(command_args.is_empty());
        }
        other => panic!("unexpected action {:?}", other),
    }
    match interpret_line("\u{a0}echo x\u{a0}") {
        LineAction::Run { command_name, command_args, .. } => {
            assert_eq!(command_name, "echo");
            assert_eq!(command_args, vec!["x"]);
        }
        other => panic!("unexpected action {:?}", other),
    }
}

fn is_white_space(c: char) -> bool {
    matches!(
        c,
        '\u{9}'..='\u{d}'
            | ' '
            | '\u{85}'
            | '\u{a0}'
            | '\u{1680}'
            | '\u{2000}'..='\u{200a}'
            | '\u{2028}'
            | '\u{2029}'
            | '\u{202f}'
            | '\u{205f}'
            | '\u{3000}'
    )
}

#[test]
fn every_white_space_character_is_taken_off_the_ends() {
    for code in 0..=0x10ffff_u32 {
        let Some(c) = char::from_u32(code) else { continue };
        if c == '\'' || c == '"' || c == '\\' {
            continue;
        }
        let line = format!("{}pwd{}", c, c);
        match interpret_line(&line) {
            LineAction::Run { command_name, command_args, .. } => {
                assert!(command_args.is_empty());
                if is_white_space(c) {
                    assert_eq!(command_name, "pwd", "U+{:04X}", code);
                } else {
                    assert_eq!(command_name, line, "U+{:04X}", code);
                }
            }
            other => panic!("U+{:04X}: unexpected action {:?}", code, other),
        }
    }
}

#[test]
fn line_of_white_space_is_passed_over() {
    for line in ["\n", "\t\t", "\u{2003}\u{3000} \r\n", "\u{85}", "\u{b}\u{c}"] {
        assert!(matches!(interpret_line(line), LineAction::Skip));
    }
    assert!(matches!(interpret_line("\u{200b}"), LineAction::Run { .. }));
}
