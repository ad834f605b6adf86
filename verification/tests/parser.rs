use codecrafters_shell::parser::{parse_tokens, ParseError, QuoteKind, Scanner};
use codecrafters_shell::requote::requote;

fn strings(items: &[&str]) -> Vec<String> {
    items.iter().map(|s| s.to_string()).collect()
}

#[test]
fn test_simple_parsing() {
    assert_eq!(
        parse_tokens("echo hello world").unwrap(),
        vec!["echo", "hello", "world"]
    );
}

#[test]
fn test_double_quotes() {
    assert_eq!(
        parse_tokens(r#"echo "hello world""#).unwrap(),
        vec!["echo", "hello world"]
    );
}

#[test]
fn test_single_quotes() {
    assert_eq!(
        parse_tokens("echo 'hello world'").unwrap(),
        vec!["echo", "hello world"]
    );
}

#[test]
fn test_backslash_escape() {
    assert_eq!(
        parse_tokens(r"echo hello\ world").unwrap(),
        vec!["echo", "hello world"]
    );
}

#[test]
fn test_unterminated_double_quote() {
    assert!(parse_tokens(r#"echo "hello"#).is_err());
}

#[test]
fn test_unterminated_single_quote() {
    assert!(parse_tokens("echo 'hello").is_err());
}

#[test]
fn test_empty_input() {
    assert_eq!(parse_tokens("").unwrap(), Vec::<String>::new());
}

#[test]
fn test_whitespace_only() {
    assert_eq!(parse_tokens("   ").unwrap(), Vec::<String>::new());
}

#[test]
fn single_quotes_keep_inner_blanks() {
    assert_eq!(parse_tokens("echo 'a  b'").unwrap(), vec!["echo", "a  b"]);
}

#[test]
fn escaped_quote_inside_double_quotes() {
    assert_eq!(parse_tokens("echo \"a\\\"b\"").unwrap(), vec!["echo", "a\"b"]);
}

#[test]
fn unterminated_quotes_name_their_kind() {
    assert_eq!(
        parse_tokens("echo 'unterminated"),
        Err(ParseError::UnterminatedQuote(QuoteKind::Single))
    );
    assert_eq!(
        parse_tokens("echo \"unterminated"),
        Err(ParseError::UnterminatedQuote(QuoteKind::Double))
    );
}

#[test]
fn quote_inside_the_other_quote_is_literal() {
    assert_eq!(parse_tokens("\"it's\"").unwrap(), vec!["it's"]);
    assert_eq!(parse_tokens("'say \"hi\"'").unwrap(), vec!["say \"hi\""]);
}

#[test]
fn backslash_in_single_quotes_is_literal() {
    assert_eq!(parse_tokens(r"'a\b' 'c\'").unwrap(), vec![r"a\b", r"c\"]);
}

#[test]
fn backslash_in_double_quotes_escapes_four_characters_only() {
    assert_eq!(parse_tokens(r#""\$""#).unwrap(), vec!["$"]);
    assert_eq!(parse_tokens(r#""\`""#).unwrap(), vec!["`"]);
    assert_eq!(parse_tokens(r#""\\""#).unwrap(), vec![r"\"]);
    assert_eq!(parse_tokens(r#""\"""#).unwrap(), vec!["\""]);
    assert_eq!(parse_tokens(r#""a\nb""#).unwrap(), vec![r"a\nb"]);
    assert_eq!(parse_tokens(r#""a\ b""#).unwrap(), vec![r"a\ b"]);
    assert_eq!(parse_tokens(r#""a\'b""#).unwrap(), vec![r"a\'b"]);
}

#[test]
fn backslash_outside_quotes_escapes_anything() {
    assert_eq!(parse_tokens(r"a\nb \'x \\ \$").unwrap(), vec!["anb", "'x", r"\", "$"]);
}

#[test]
fn backslash_at_the_end_of_the_line_is_literal() {
    assert_eq!(parse_tokens(r"echo a\").unwrap(), vec!["echo", r"a\"]);
    assert_eq!(parse_tokens(r"\").unwrap(), vec![r"\"]);
}

#[test]
fn blanks_collapse_and_tabs_separate() {
    assert_eq!(parse_tokens("  a \t  b\tc  ").unwrap(), vec!["a", "b", "c"]);
}

#[test]
fn empty_quotes_leave_no_argument() {
    assert_eq!(parse_tokens("''").unwrap(), Vec::<String>::new());
    assert_eq!(parse_tokens("echo \"\" ''").unwrap(), vec!["echo"]);
}

#[test]
fn adjacent_quoted_parts_join() {
    assert_eq!(parse_tokens("a'b c'\"d e\"f").unwrap(), vec!["ab cd ef"]);
}

#[test]
fn scanner_steps_through_a_line() {
    let mut scanner = Scanner::new();
    for c in "a 'b c'".chars() {
        scanner.step(c);
    }
    assert_eq!(scanner.finish().unwrap(), vec!["a", "b c"]);

    let mut open = Scanner::new();
    open.step('"');
    assert_eq!(open.finish(), Err(ParseError::UnterminatedQuote(QuoteKind::Double)));
}

#[test]
fn requote_wraps_arguments_with_blanks() {
    assert_eq!(requote(&strings(&["echo", "a  b", "c\td", "e"])), "echo 'a  b' 'c\td' e");
    assert_eq!(requote(&[]), "");
    assert_eq!(requote(&strings(&["one"])), "one");
}

#[test]
fn requoted_line_splits_into_the_same_arguments() {
    for line in [
        "echo hello world",
        "echo 'a  b'",
        "echo \"a b\"   c\\ d",
        "  x\ty 'p \"q\" r' ",
        "cat \"a\\\\ b\"",
        "",
        "echo a\\\\",
    ] {
        let tokens = parse_tokens(line).unwrap();
        assert_eq!(parse_tokens(&requote(&tokens)).unwrap(), tokens);
    }
}
