use codecrafters_shell::redirect::{
    parse_redirections, redirect_operator, RedirectionMode, Stream,
};

fn strings(items: &[&str]) -> Vec<String> {
    items.iter().map(|s| s.to_string()).collect()
}

#[test]
fn test_no_redirection() {
    let args = vec!["ls".to_string(), "-l".to_string()];
    let (remaining_args, redirections) = parse_redirections(&args);
    assert_eq!(remaining_args, args);
    assert!(redirections.stdout_redirect.is_none());
    assert!(redirections.stderr_redirect.is_none());
}

#[test]
fn test_stdout_overwrite() {
    let args = vec!["echo".to_string(), "hello".to_string(), ">".to_string(), "output.txt".to_string()];
    let (remaining_args, redirections) = parse_redirections(&args);
    assert_eq!(remaining_args, vec!["echo", "hello"]);
    assert!(redirections.stdout_redirect.is_some());
    let stdout = redirections.stdout_redirect.unwrap();
    assert_eq!(stdout.filename, "output.txt");
    assert_eq!(stdout.mode, RedirectionMode::Overwrite);
}

#[test]
fn test_stdout_append() {
    let args = vec!["echo".to_string(), "hello".to_string(), ">>".to_string(), "output.txt".to_string()];
    let (remaining_args, redirections) = parse_redirections(&args);
    assert_eq!(remaining_args, vec!["echo", "hello"]);
    assert!(redirections.stdout_redirect.is_some());
    let stdout = redirections.stdout_redirect.unwrap();
    assert_eq!(stdout.filename, "output.txt");
    assert_eq!(stdout.mode, RedirectionMode::Append);
}

#[test]
fn test_stderr_redirection() {
    let args = vec!["ls".to_string(), "/nonexistent".to_string(), "2>".to_string(), "error.txt".to_string()];
    let (remaining_args, redirections) = parse_redirections(&args);
    assert_eq!(remaining_args, vec!["ls", "/nonexistent"]);
    assert!(redirections.stderr_redirect.is_some());
    let stderr = redirections.stderr_redirect.unwrap();
    assert_eq!(stderr.filename, "error.txt");
    assert_eq!(stderr.mode, RedirectionMode::Overwrite);
}

#[test]
fn test_both_redirections() {
    let args = vec![
        "command".to_string(),
        ">".to_string(),
        "output.txt".to_string(),
        "2>".to_string(),
        "error.txt".to_string()
    ];
    let (remaining_args, redirections) = parse_redirections(&args);
    assert_eq!(remaining_args, vec!["command"]);
    assert!(redirections.stdout_redirect.is_some());
    assert!(redirections.stderr_redirect.is_some());
}

#[test]
fn test_explicit_fd_redirections() {
    let args = vec!["echo".to_string(), "test".to_string(), "1>".to_string(), "out.txt".to_string()];
    let (remaining_args, redirections) = parse_redirections(&args);
    assert_eq!(remaining_args, vec!["echo", "test"]);
    assert!(redirections.stdout_redirect.is_some());
    let stdout = redirections.stdout_redirect.unwrap();
    assert_eq!(stdout.filename, "out.txt");
    assert_eq!(stdout.mode, RedirectionMode::Overwrite);
}

#[test]
fn both_streams_in_either_order() {
    let (rest, red) = parse_redirections(&strings(&["cmd", "arg", ">", "out.txt", "2>", "err.txt"]));
    assert_eq!(rest, vec!["cmd", "arg"]);
    let stdout = red.stdout_redirect.unwrap();
    assert_eq!(stdout.filename, "out.txt");
    assert_eq!(stdout.mode, RedirectionMode::Overwrite);
    let stderr = red.stderr_redirect.unwrap();
    assert_eq!(stderr.filename, "err.txt");
    assert_eq!(stderr.mode, RedirectionMode::Overwrite);

    let (rest, red) = parse_redirections(&strings(&["cmd", "arg", "2>", "err.txt", ">", "out.txt"]));
    assert_eq!(rest, vec!["cmd", "arg"]);
    assert_eq!(red.stdout_redirect.unwrap().filename, "out.txt");
    assert_eq!(red.stderr_redirect.unwrap().filename, "err.txt");
}

#[test]
fn last_redirection_of_a_stream_wins() {
    let (rest, red) = parse_redirections(&strings(&["cmd", ">", "a", ">", "b"]));
    assert_eq!(rest, vec!["cmd"]);
    let stdout = red.stdout_redirect.unwrap();
    assert_eq!(stdout.filename, "b");
    assert_eq!(stdout.mode, RedirectionMode::Overwrite);
    assert!(red.stderr_redirect.is_none());

    let (_, red) = parse_redirections(&strings(&["cmd", "2>>", "a", ">", "x", "2>", "b"]));
    let stderr = red.stderr_redirect.unwrap();
    assert_eq!(stderr.filename, "b");
    assert_eq!(stderr.mode, RedirectionMode::Overwrite);
    assert_eq!(red.stdout_redirect.unwrap().filename, "x");
}

#[test]
fn stderr_append() {
    let (rest, red) = parse_redirections(&strings(&["make", "2>>", "log"]));
    assert_eq!(rest, vec!["make"]);
    let stderr = red.stderr_redirect.unwrap();
    assert_eq!(stderr.filename, "log");
    assert_eq!(stderr.mode, RedirectionMode::Append);
    let (_, red) = parse_redirections(&strings(&["make", "1>>", "log"]));
    assert_eq!(red.stdout_redirect.unwrap().mode, RedirectionMode::Append);
}

#[test]
fn operator_that_is_not_at_the_end_is_an_argument() {
    let args = strings(&["cmd", ">", "out", "arg2"]);
    let (rest, red) = parse_redirections(&args);
    assert_eq!(rest, args);
    assert!(red.stdout_redirect.is_none());
    assert!(red.stderr_redirect.is_none());
}

#[test]
fn operator_without_a_file_name_is_an_argument() {
    let args = strings(&["cmd", ">"]);
    let (rest, red) = parse_redirections(&args);
    assert_eq!(rest, args);
    assert!(red.stdout_redirect.is_none());

    let one = strings(&[">"]);
    let (rest, _) = parse_redirections(&one);
    assert_eq!(rest, one);
    let (rest, _) = parse_redirections(&[]);
    assert!(rest.is_empty());
}

#[test]
fn file_name_may_look_like_an_operator() {
    let (rest, red) = parse_redirections(&strings(&["cmd", ">", "2>"]));
    assert_eq!(rest, vec!["cmd"]);
    assert_eq!(red.stdout_redirect.unwrap().filename, "2>");
    assert!(red.stderr_redirect.is_none());
}

#[test]
fn operators_are_read_exactly() {
    assert_eq!(redirect_operator(">"), Some((Stream::Stdout, RedirectionMode::Overwrite)));
    assert_eq!(redirect_operator("1>"), Some((Stream::Stdout, RedirectionMode::Overwrite)));
    assert_eq!(redirect_operator(">>"), Some((Stream::Stdout, RedirectionMode::Append)));
    assert_eq!(redirect_operator("1>>"), Some((Stream::Stdout, RedirectionMode::Append)));
    assert_eq!(redirect_operator("2>"), Some((Stream::Stderr, RedirectionMode::Overwrite)));
    assert_eq!(redirect_operator("2>>"), Some((Stream::Stderr, RedirectionMode::Append)));
    assert_eq!(redirect_operator("3>"), None);
    assert_eq!(redirect_operator("<"), None);
    assert_eq!(redirect_operator(">>>"), None);
    assert_eq!(redirect_operator(""), None);
}
