use codecrafters_shell::builtins::{
    change_dir, expand_home, handle_cd, handle_echo, handle_exit, handle_pwd, handle_type,
    is_builtin, type_info_string,
};
use codecrafters_shell::command::{FailureKind, IoFailure};

fn strings(items: &[&str]) -> Vec<String> {
    items.iter().map(|s| s.to_string()).collect()
}

#[test]
fn test_echo_empty() {
    let result = handle_echo(&[]);
    assert_eq!(result.unwrap().unwrap(), "\r\n");
}

#[test]
fn test_echo_single_arg() {
    let result = handle_echo(&["hello".to_string()]);
    assert_eq!(result.unwrap().unwrap(), "hello\r\n");
}

#[test]
fn test_echo_multiple_args() {
    let result = handle_echo(&["hello".to_string(), "world".to_string()]);
    assert_eq!(result.unwrap().unwrap(), "hello world\r\n");
}

#[test]
fn test_pwd() {
    let result = handle_pwd(&[], Ok("/home/user".to_string()));
    assert!(result.is_ok());
    assert!(result.unwrap().is_some());
}

#[test]
fn test_type_builtin() {
    let result = handle_type(&["echo".to_string()], None);
    assert_eq!(result.unwrap().unwrap(), "echo is a shell builtin\r\n");
}

#[test]
fn test_type_no_args() {
    let result = handle_type(&[], None);
    assert!(result.is_err());
    assert_eq!(result.unwrap_err(), "type: missing argument");
}

#[test]
fn test_type_too_many_args() {
    let result = handle_type(&["echo".to_string(), "pwd".to_string()], None);
    assert!(result.is_err());
    assert_eq!(result.unwrap_err(), "type: too many arguments");
}

#[test]
fn test_cd_too_many_args() {
    let result = handle_cd(&["dir1".to_string(), "dir2".to_string()], Some("/home/user"));
    assert!(result.is_err());
    assert_eq!(result.unwrap_err(), "cd: too many arguments");
}

#[test]
fn test_type_info_string() {
    assert_eq!(type_info_string("echo", None), "echo is a shell builtin");
    assert_eq!(
        type_info_string("nonexistent_command_xyz", None),
        "nonexistent_command_xyz: not found"
    );
}

#[test]
fn echo_keeps_blanks_inside_arguments() {
    let result = handle_echo(&strings(&["a  b", "", "c"]));
    assert_eq!(result, Ok(Some("a  b  c\r\n".to_string())));
}

#[test]
fn pwd_prints_the_directory_and_a_line_end() {
    assert_eq!(
        handle_pwd(&strings(&["ignored"]), Ok("/tmp/work".to_string())),
        Ok(Some("/tmp/work\r\n".to_string()))
    );
}

#[test]
fn pwd_reports_why_the_directory_is_unknown() {
    assert_eq!(
        handle_pwd(&[], Err("No such file or directory (os error 2)".to_string())),
        Err("pwd: error getting current directory: No such file or directory (os error 2)"
            .to_string())
    );
}

#[test]
fn every_builtin_name_is_known() {
    for name in ["echo", "exit", "type", "pwd", "cd"] {
        assert!(is_builtin(name));
        assert_eq!(
            type_info_string(name, Some("/usr/bin/shadowed")),
            format!("{} is a shell builtin", name)
        );
    }
    assert!(!is_builtin("ls"));
    assert!(!is_builtin("Echo"));
    assert!(!is_builtin(""));
    assert!(!is_builtin("help"));
}

#[test]
fn type_names_the_path_of_a_program() {
    assert_eq!(type_info_string("ls", Some("/bin/ls")), "ls is /bin/ls");
    assert_eq!(
        handle_type(&strings(&["ls"]), Some("/usr/bin/ls")),
        Ok(Some("ls is /usr/bin/ls\r\n".to_string()))
    );
    assert_eq!(
        handle_type(&strings(&["nope"]), None),
        Ok(Some("nope: not found\r\n".to_string()))
    );
}

#[test]
fn cd_without_arguments_goes_home() {
    assert_eq!(handle_cd(&[], Some("/home/user")), Ok("/home/user".to_string()));
    assert_eq!(
        handle_cd(&[], None),
        Err("cd: HOME environment variable not set".to_string())
    );
}

#[test]
fn cd_expands_a_leading_tilde() {
    assert_eq!(handle_cd(&strings(&["~"]), Some("/home/user")), Ok("/home/user".to_string()));
    assert_eq!(
        handle_cd(&strings(&["~/src/app"]), Some("/home/user")),
        Ok("/home/user/src/app".to_string())
    );
    assert_eq!(
        handle_cd(&strings(&["~/docs"]), None),
        Err("cd: HOME environment variable not set".to_string())
    );
    assert_eq!(
        expand_home("~/x", Some("/home/user/")),
        Ok("/home/user/x".to_string())
    );
    assert_eq!(expand_home("~/", Some("/home/user")), Ok("/home/user/".to_string()));
}

#[test]
fn cd_leaves_other_targets_alone() {
    assert_eq!(handle_cd(&strings(&["/tmp"]), None), Ok("/tmp".to_string()));
    assert_eq!(handle_cd(&strings(&["~user"]), Some("/h")), Ok("~user".to_string()));
    assert_eq!(handle_cd(&strings(&["a/~/b"]), Some("/h")), Ok("a/~/b".to_string()));
    assert_eq!(expand_home("", Some("/h")), Ok("".to_string()));
    assert_eq!(expand_home("é~/", Some("/h")), Ok("é~/".to_string()));
}

#[test]
fn change_dir_is_silent_on_success() {
    assert_eq!(change_dir("/tmp", Ok(())), Ok(None));
}

#[test]
fn change_dir_words_each_failure() {
    let failure = |kind, text: &str| Err(IoFailure { kind, text: text.to_string() });
    assert_eq!(
        change_dir("/nowhere", failure(FailureKind::NotFound, "No such file (os error 2)")),
        Err("cd: /nowhere: No such file or directory".to_string())
    );
    assert_eq!(
        change_dir("/root", failure(FailureKind::PermissionDenied, "denied (os error 13)")),
        Err("cd: /root: Permission denied".to_string())
    );
    assert_eq!(
        change_dir("/etc/passwd", failure(FailureKind::Other, "Not a directory (os error 20)")),
        Err("cd: /etc/passwd: Not a directory (os error 20)".to_string())
    );
}

#[test]
fn exit_code_defaults_to_zero() {
    assert_eq!(handle_exit(&[]), 0);
    assert_eq!(handle_exit(&strings(&["abc"])), 0);
    assert_eq!(handle_exit(&strings(&[""])), 0);
    assert_eq!(handle_exit(&strings(&["-"])), 0);
    assert_eq!(handle_exit(&strings(&["+"])), 0);
    assert_eq!(handle_exit(&strings(&["1 "])), 0);
    assert_eq!(handle_exit(&strings(&[" 1"])), 0);
    assert_eq!(handle_exit(&strings(&["1-"])), 0);
    assert_eq!(handle_exit(&strings(&["--1"])), 0);
    assert_eq!(handle_exit(&strings(&["1.5"])), 0);
    assert_eq!(handle_exit(&strings(&["٣"])), 0);
}

#[test]
fn exit_code_is_the_first_argument() {
    assert_eq!(handle_exit(&strings(&["0"])), 0);
    assert_eq!(handle_exit(&strings(&["3"])), 3);
    assert_eq!(handle_exit(&strings(&["42", "ignored"])), 42);
    assert_eq!(handle_exit(&strings(&["+7"])), 7);
    assert_eq!(handle_exit(&strings(&["-1"])), -1);
    assert_eq!(handle_exit(&strings(&["007"])), 7);
    assert_eq!(handle_exit(&strings(&["-0"])), 0);
}

#[test]
fn exit_code_must_fit_thirty_two_bits() {
    assert_eq!(handle_exit(&strings(&["2147483647"])), 2147483647);
    assert_eq!(handle_exit(&strings(&["-2147483648"])), -2147483648);
    assert_eq!(handle_exit(&strings(&["2147483648"])), 0);
    assert_eq!(handle_exit(&strings(&["-2147483649"])), 0);
    assert_eq!(handle_exit(&strings(&["99999999999999999999999999"])), 0);
    assert_eq!(handle_exit(&strings(&["00000000000000000000000012"])), 12);
}

#[test]
fn exit_code_agrees_with_the_standard_parser() {
    for text in ["5", "-5", "+5", "", "-", "x1", "1x", "2147483647", "2147483648", "-2147483648", "0000", "+-1"] {
        let expected = text.parse::<i32>().unwrap_or(0);
        assert_eq!(handle_exit(&strings(&[text])), expected);
    }
}
