//! The commands that the shell runs itself.
//!
//! A builtin returns text for standard output (`Ok(Some(..))`), nothing
//! (`Ok(None)`) or a message for standard error (`Err(..)`).  What a builtin
//! needs to know of the process (the working directory, `HOME`, where a
//! program lies) is handed to it as a value.

use vstd::prelude::*;
use vstd::string::StringExecFns;
use vstd::string::StrSliceExecFns;
use crate::command::{builtin_view, BuiltinView, FailureKind, IoFailure};
use crate::text::{join, joined, optional_text};

verus! {

/// What `echo` prints: its arguments with one space between two of them, and
/// the end of the line.
pub open spec fn echo_text(args: Seq<Seq<char>>) -> Seq<char> {
    joined(args, " "@) + "\r\n"@
}

/// Runs `echo`.
pub fn handle_echo(args: &[String]) -> (result: Result<Option<String>, String>)
    ensures
        builtin_view(result) == Ok::<Option<Seq<char>>, Seq<char>>(Some(echo_text(args.deep_view()))),
{
    let mut text = join(args, " ");
    text.append("\r\n");
    Ok(Some(text))
}

/// What `pwd` comes to: the working directory and the end of the line, or
/// a message where the directory could not be had.
pub open spec fn pwd_outcome(current_dir: Result<Seq<char>, Seq<char>>) -> BuiltinView {
    match current_dir {
        Ok(dir) => Ok(Some(dir + "\r\n"@)),
        Err(reason) => Err("pwd: error getting current directory: "@ + reason),
    }
}

/// The texts that a result of two strings holds.
pub open spec fn result_text(result: Result<String, String>) -> Result<Seq<char>, Seq<char>> {
    match result {
        Ok(text) => Ok(text@),
        Err(text) => Err(text@),
    }
}

/// Runs `pwd`.  `current_dir` is the working directory, or the reason why
/// the system could not tell it.  The arguments are not looked at.
pub fn handle_pwd(_args: &[String], current_dir: Result<String, String>) -> (result: Result<
    Option<String>,
    String,
>)
    ensures
        builtin_view(result) == pwd_outcome(result_text(current_dir)),
{
    match current_dir {
        Ok(dir) => {
            let mut text = dir;
            text.append("\r\n");
            Ok(Some(text))
        },
        Err(reason) => {
            let mut message = "pwd: error getting current directory: ".to_string();
            message.append(reason.as_str());
            Err(message)
        },
    }
}

/// Whether a name is that of a builtin.
pub open spec fn is_builtin_name(name: Seq<char>) -> bool {
    name == "echo"@ || name == "exit"@ || name == "type"@ || name == "pwd"@ || name == "cd"@
}

/// Whether a command name is that of a builtin.
pub fn is_builtin(name: &str) -> (builtin: bool)
    ensures
        builtin == is_builtin_name(name@),
{
    name.eq("echo") || name.eq("exit") || name.eq("type") || name.eq("pwd") || name.eq("cd")
}

/// What `type` says of a name.  `found` is where a program of that name
/// lies; of a builtin's name it is not looked at.
pub open spec fn type_info(name: Seq<char>, found: Option<Seq<char>>) -> Seq<char> {
    if is_builtin_name(name) {
        name + " is a shell builtin"@
    } else {
        match found {
            Some(path) => name + " is "@ + path,
            None => name + ": not found"@,
        }
    }
}

/// Says what kind of command `name` is.  `found` is the result of looking
/// the name up among the programs.
pub fn type_info_string(name: &str, found: Option<&str>) -> (info: String)
    ensures
        info@ == type_info(name@, optional_text(found)),
{
    let mut info = name.to_string();
    if is_builtin(name) {
        info.append(" is a shell builtin");
    } else {
        match found {
            Some(path) => {
                info.append(" is ");
                info.append(path);
            },
            None => {
                info.append(": not found");
            },
        }
    }
    info
}

/// The name that `type` has to look up among the programs before it can
/// answer: its one argument, unless that names a builtin.
pub open spec fn type_lookup(args: Seq<Seq<char>>) -> Option<Seq<char>> {
    if args.len() == 1 && !is_builtin_name(args[0]) {
        Some(args[0])
    } else {
        None
    }
}

/// What `type` comes to.
pub open spec fn type_outcome(args: Seq<Seq<char>>, found: Option<Seq<char>>) -> BuiltinView {
    if args.len() == 1 {
        Ok(Some(type_info(args[0], found) + "\r\n"@))
    } else if args.len() == 0 {
        Err("type: missing argument"@)
    } else {
        Err("type: too many arguments"@)
    }
}

/// Runs `type`.  `found` is the result of looking up the name that
/// [`type_lookup`] gives; where that gives none, `found` is not looked at.
pub fn handle_type(args: &[String], found: Option<&str>) -> (result: Result<
    Option<String>,
    String,
>)
    ensures
        builtin_view(result) == type_outcome(args.deep_view(), optional_text(found)),
{
    if args.len() == 1 {
        let mut text = type_info_string(args[0].as_str(), found);
        text.append("\r\n");
        Ok(Some(text))
    } else if args.len() == 0 {
        Err("type: missing argument".to_string())
    } else {
        Err("type: too many arguments".to_string())
    }
}

/// Without a lookup to wait for, `type` says the same whatever it is told
/// was found.
pub proof fn lemma_type_without_lookup(
    args: Seq<Seq<char>>,
    found: Option<Seq<char>>,
    other: Option<Seq<char>>,
)
    requires
        type_lookup(args) is None,
    ensures
        type_outcome(args, found) == type_outcome(args, other),
{
}

/// The path that `base` and `rest` make when `rest` is appended to `base`
/// as the platform's path syntax has it.  Where a separator goes between the
/// two, and when `rest` takes the place of `base`, differs from one platform
/// to the other, so the path has a name here and no rule.
pub uninterp spec fn joined_path(base: Seq<char>, rest: Seq<char>) -> Seq<char>;

/// `std::path::PathBuf::push` on a path made of `base`, given `rest`.  What
/// is taken on trust is that the result depends on the two texts alone; the
/// platform is fixed when the library is built.  Both are valid text, so
/// turning the path back into a string loses nothing.
#[verifier::external_body]
fn join_path(base: &str, rest: &str) -> (path: String)
    ensures
        path@ == joined_path(base@, rest@),
{
    let mut path = std::path::PathBuf::from(base);
    path.push(rest);
    path.to_string_lossy().into_owned()
}

/// Whether a target of `cd` starts with `~/`.
pub open spec fn under_home(target: Seq<char>) -> bool {
    target.len() >= 2 && target[0] == '~' && target[1] == '/'
}

/// The directory that a target of `cd` stands for.  `~` is the home
/// directory and `~/rest` is `rest` below it; with no home directory known
/// both are errors.  Every other target stands for itself.
pub open spec fn expanded_home(target: Seq<char>, home: Option<Seq<char>>) -> Result<
    Seq<char>,
    Seq<char>,
> {
    if target == "~"@ || under_home(target) {
        match home {
            Some(home) => Ok(
                if under_home(target) {
                    joined_path(home, target.skip(2))
                } else {
                    home
                },
            ),
            None => Err("cd: HOME environment variable not set"@),
        }
    } else {
        Ok(target)
    }
}

/// Whether a string starts with `~/`.
fn starts_under_home(target: &str) -> (under: bool)
    ensures
        under == under_home(target@),
{
    target.unicode_len() >= 2 && target.get_char(0) == '~' && target.get_char(1) == '/'
}

/// Replaces a leading `~` by the home directory.
pub fn expand_home(target: &str, home: Option<&str>) -> (result: Result<String, String>)
    ensures
        result_text(result) == expanded_home(target@, optional_text(home)),
{
    let under = starts_under_home(target);
    if target.eq("~") || under {
        match home {
            Some(home) => {
                if under {
                    let rest = target.substring_char(2, target.unicode_len());
                    Ok(join_path(home, rest))
                } else {
                    Ok(home.to_string())
                }
            },
            None => Err("cd: HOME environment variable not set".to_string()),
        }
    } else {
        Ok(target.to_string())
    }
}

/// The directory that `cd` has to change to: that of its one argument, the
/// home directory where it has none, a message where it has more.
pub open spec fn cd_destination(args: Seq<Seq<char>>, home: Option<Seq<char>>) -> Result<
    Seq<char>,
    Seq<char>,
> {
    if args.len() == 0 {
        expanded_home("~"@, home)
    } else if args.len() == 1 {
        expanded_home(args[0], home)
    } else {
        Err("cd: too many arguments"@)
    }
}

/// Runs `cd` up to the change of directory: returns the directory to change
/// to, or the message that ends the command.  `home` is the value of `HOME`.
pub fn handle_cd(args: &[String], home: Option<&str>) -> (result: Result<String, String>)
    ensures
        result_text(result) == cd_destination(args.deep_view(), optional_text(home)),
{
    if args.len() == 0 {
        expand_home("~", home)
    } else if args.len() == 1 {
        expand_home(args[0].as_str(), home)
    } else {
        Err("cd: too many arguments".to_string())
    }
}

/// How `cd` words a failure to change the directory.
pub open spec fn failure_description(kind: FailureKind, text: Seq<char>) -> Seq<char> {
    match kind {
        FailureKind::NotFound => "No such file or directory"@,
        FailureKind::PermissionDenied => "Permission denied"@,
        FailureKind::Other => text,
    }
}

/// What `cd` comes to once the change of directory has been tried.
pub open spec fn change_dir_outcome(
    target_path: Seq<char>,
    changed: Result<(), (FailureKind, Seq<char>)>,
) -> BuiltinView {
    match changed {
        Ok(_) => Ok(None),
        Err((kind, text)) => Err(
            "cd: "@ + target_path + ": "@ + failure_description(kind, text),
        ),
    }
}

/// What the system said of a change of directory, as a value.
pub open spec fn change_view(changed: Result<(), IoFailure>) -> Result<
    (),
    (FailureKind, Seq<char>),
> {
    match changed {
        Ok(_) => Ok(()),
        Err(failure) => Err((failure.kind, failure.text@)),
    }
}

/// Ends `cd`: `changed` is what the system said when the directory was
/// changed to `target_path`.
pub fn change_dir(target_path: &str, changed: Result<(), IoFailure>) -> (result: Result<
    Option<String>,
    String,
>)
    ensures
        builtin_view(result) == change_dir_outcome(target_path@, change_view(changed)),
{
    match changed {
        Ok(_) => Ok(None),
        Err(failure) => {
            let mut message = "cd: ".to_string();
            message.append(target_path);
            message.append(": ");
            match failure.kind {
                FailureKind::NotFound => message.append("No such file or directory"),
                FailureKind::PermissionDenied => message.append("Permission denied"),
                FailureKind::Other => message.append(failure.text.as_str()),
            }
            Err(message)
        },
    }
}

/// Whether a character is a decimal digit.
pub open spec fn is_digit(c: char) -> bool {
    '0' <= c <= '9'
}

/// The number that decimal digits spell.
pub open spec fn decimal(digits: Seq<char>) -> int
    decreases digits.len(),
{
    if digits.len() == 0 {
        0
    } else {
        decimal(digits.drop_last()) * 10 + (digits.last() as int - '0' as int)
    }
}

/// How many characters of a text are its sign: one if it starts with `-` or
/// `+`, none otherwise.
pub open spec fn sign_len(text: Seq<char>) -> int {
    if text.len() > 0 && (text[0] == '-' || text[0] == '+') {
        1
    } else {
        0
    }
}

/// The digits of a number: what follows its sign.
pub open spec fn digits_of(text: Seq<char>) -> Seq<char> {
    text.skip(sign_len(text))
}

/// The number that a text spells.
pub open spec fn signed_decimal(text: Seq<char>) -> int {
    if text.len() > 0 && text[0] == '-' {
        -decimal(digits_of(text))
    } else {
        decimal(digits_of(text))
    }
}

/// Whether a text is a number: an optional sign, then one decimal digit or
/// more and nothing else.
pub open spec fn is_number(text: Seq<char>) -> bool {
    &&& digits_of(text).len() > 0
    &&& forall|i: int| 0 <= i < digits_of(text).len() ==> is_digit(#[trigger] digits_of(text)[i])
}

/// The exit code that `exit` ends the shell with: the number that its first
/// argument spells, where that is a number that a 32-bit integer holds, and
/// zero otherwise.
pub open spec fn exit_code(args: Seq<Seq<char>>) -> int {
    if args.len() > 0 && is_number(args[0]) && i32::MIN <= signed_decimal(args[0]) <= i32::MAX {
        signed_decimal(args[0])
    } else {
        0
    }
}

/// More digits make a number no smaller.
proof fn lemma_decimal_grows(digits: Seq<char>, k: int)
    requires
        0 <= k <= digits.len(),
        forall|i: int| 0 <= i < digits.len() ==> is_digit(#[trigger] digits[i]),
    ensures
        0 <= decimal(digits.take(k)) <= decimal(digits),
    decreases digits.len() - k,
{
    if k == digits.len() {
        assert(digits.take(k) =~= digits);
        lemma_decimal_not_negative(digits);
    } else {
        lemma_decimal_grows(digits, k + 1);
        assert(digits.take(k + 1).drop_last() =~= digits.take(k));
        lemma_decimal_not_negative(digits.take(k));
    }
}

/// Digits spell no negative number.
proof fn lemma_decimal_not_negative(digits: Seq<char>)
    requires
        forall|i: int| 0 <= i < digits.len() ==> is_digit(#[trigger] digits[i]),
    ensures
        0 <= decimal(digits),
    decreases digits.len(),
{
    if digits.len() > 0 {
        lemma_decimal_not_negative(digits.drop_last());
    }
}

/// Reads the number that a text spells, where it spells one that a 32-bit
/// integer holds.
fn parse_number(text: &str) -> (number: Option<i32>)
    ensures
        number == if is_number(text@) && i32::MIN <= signed_decimal(text@) <= i32::MAX {
            Some(signed_decimal(text@) as i32)
        } else {
            None::<i32>
        },
{
    let ghost digits = digits_of(text@);
    let mut at_start = true;
    let mut negative = false;
    let mut any_digit = false;
    let mut magnitude: i64 = 0;
    for c in chars: text.chars()
        invariant
            chars.seq() == text@,
            digits == digits_of(text@),
            at_start == (chars.index() == 0),
            negative == (chars.index() > 0 && text@[0] == '-'),
            chars.index() > 0 ==> chars.index() >= sign_len(text@),
            any_digit == (chars.index() > sign_len(text@)),
            forall|i: int|
                0 <= i < chars.index() - sign_len(text@) ==> is_digit(#[trigger] digits[i]),
            magnitude == if chars.index() > 0 {
                decimal(digits.take(chars.index() - sign_len(text@)))
            } else {
                0
            },
            0 <= magnitude <= 0x8000_0000,
    {
        let ghost seen = chars.index() - sign_len(text@);
        if at_start && (c == '-' || c == '+') {
            negative = c == '-';
        } else if '0' <= c && c <= '9' {
            let digit: i64 = (c as u32 - '0' as u32) as i64;
            assert(digits.take(seen + 1).drop_last() =~= digits.take(seen));
            magnitude = magnitude * 10 + digit;
            any_digit = true;
            assert(decimal(digits.take(seen + 1)) == decimal(digits.take(seen)) * 10 + (c as int
                - '0' as int));
            if magnitude > 0x8000_0000 {
                proof {
                    if is_number(text@) {
                        lemma_decimal_grows(digits, seen + 1);
                    }
                }
                return None;
            }
        } else {
            assert(!is_digit(digits[seen]));
            return None;
        }
        at_start = false;
    }
    assert(digits.take(digits.len() as int) =~= digits);
    if !any_digit {
        None
    } else if negative {
        Some((-magnitude) as i32)
    } else if magnitude > 0x7fff_ffff {
        None
    } else {
        Some(magnitude as i32)
    }
}

/// Runs `exit` up to the end of the process: returns the exit code.
pub fn handle_exit(args: &[String]) -> (code: i32)
    ensures
        code == exit_code(args.deep_view()),
{
    if args.len() == 0 {
        0
    } else {
        match parse_number(args[0].as_str()) {
            Some(code) => code,
            None => 0,
        }
    }
}

/// No message of a builtin is empty.
pub proof fn lemma_builtin_messages_not_empty(
    args: Seq<Seq<char>>,
    found: Option<Seq<char>>,
    home: Option<Seq<char>>,
    current_dir: Result<Seq<char>, Seq<char>>,
    target_path: Seq<char>,
    changed: Result<(), (FailureKind, Seq<char>)>,
)
    ensures
        pwd_outcome(current_dir) matches Err(message) ==> message.len() > 0,
        type_outcome(args, found) matches Err(message) ==> message.len() > 0,
        cd_destination(args, home) matches Err(message) ==> message.len() > 0,
        change_dir_outcome(target_path, changed) matches Err(message) ==> message.len() > 0,
{
    reveal_strlit("pwd: error getting current directory: ");
    reveal_strlit("type: missing argument");
    reveal_strlit("type: too many arguments");
    reveal_strlit("cd: too many arguments");
    reveal_strlit("cd: HOME environment variable not set");
    reveal_strlit("cd: ");
}

} // verus!
