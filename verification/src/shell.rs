//! One line of input, from its text to what has to happen for it.
//!
//! The line is split into arguments, the first of which names the command.
//! The redirections are taken off the end of the other arguments, and the
//! command is dispatched with what remains.

use vstd::prelude::*;
use vstd::slice::slice_subrange;
use vstd::string::StringExecFns;
use crate::dispatch::{dispatch_command, Command, CommandView};
use crate::parser::{parse_tokens, tokenize};
use crate::redirect::{parse_redirections, resolve, RedirectionSpec, Redirections};

verus! {

/// What has to happen for a line of input.
#[derive(Debug)]
pub enum LineAction {
    /// Nothing: the line holds no command.
    Skip,
    /// The line cannot be read; this text tells the user so on the
    /// terminal's standard error.
    Report(String),
    /// The line holds a command.
    Run {
        command_name: String,
        /// The arguments without the redirections.
        command_args: Vec<String>,
        redirections: Redirections,
        /// The command before its first step.
        command: Command,
    },
}

/// What has to happen for a line, as a value.
pub enum LineView {
    Skip,
    Report(Seq<char>),
    Run {
        command_name: Seq<char>,
        command_args: Seq<Seq<char>>,
        redirections: RedirectionSpec,
        command: CommandView,
    },
}

impl View for LineAction {
    type V = LineView;

    open spec fn view(&self) -> LineView {
        match self {
            LineAction::Skip => LineView::Skip,
            LineAction::Report(text) => LineView::Report(text@),
            LineAction::Run { command_name, command_args, redirections, command } => LineView::Run {
                command_name: command_name@,
                command_args: command_args.deep_view(),
                redirections: redirections@,
                command: command@,
            },
        }
    }
}

/// What has to happen for a line.
///
/// A line that leaves a quote open is reported and does nothing else.  A
/// line without arguments is passed over.  Of any other line the first
/// argument is the command; the redirections are looked for in the arguments
/// behind it, so the command's name is never taken for a file.
pub open spec fn interpretation(line: Seq<char>) -> LineView {
    match tokenize(line) {
        Err(e) => LineView::Report("shell: parse error: "@ + e.text() + "\r\n"@),
        Ok(tokens) => if tokens.len() == 0 {
            LineView::Skip
        } else {
            LineView::Run {
                command_name: tokens[0],
                command_args: resolve(tokens.skip(1)).0,
                redirections: resolve(tokens.skip(1)).1,
                command: CommandView::start(
                    tokens[0],
                    resolve(tokens.skip(1)).0,
                    resolve(tokens.skip(1)).1,
                ),
            }
        },
    }
}

/// Says what has to happen for a line.
pub fn interpret(line: &str) -> (action: LineAction)
    ensures
        action@ == interpretation(line@),
{
    match parse_tokens(line) {
        Err(e) => {
            let mut text = "shell: parse error: ".to_string();
            text.append(e.message().as_str());
            text.append("\r\n");
            LineAction::Report(text)
        },
        Ok(tokens) => {
            if tokens.len() == 0 {
                LineAction::Skip
            } else {
                let args_slice = slice_subrange(tokens.as_slice(), 1, tokens.len());
                assert(args_slice.deep_view() =~= tokens.deep_view().skip(1));
                let (command_args, redirections) = parse_redirections(args_slice);
                let command = dispatch_command(
                    tokens[0].as_str(),
                    command_args.as_slice(),
                    &redirections,
                );
                LineAction::Run {
                    command_name: tokens[0].clone(),
                    command_args,
                    redirections,
                    command,
                }
            }
        },
    }
}

/// Whether a character is white space: one of the characters that Unicode
/// gives the property `White_Space`.
pub open spec fn is_white_space(c: char) -> bool {
    ||| '\u{9}' <= c <= '\u{d}'
    ||| c == ' '
    ||| c == '\u{85}'
    ||| c == '\u{a0}'
    ||| c == '\u{1680}'
    ||| '\u{2000}' <= c <= '\u{200a}'
    ||| c == '\u{2028}'
    ||| c == '\u{2029}'
    ||| c == '\u{202f}'
    ||| c == '\u{205f}'
    ||| c == '\u{3000}'
}

/// Whether a text consists of white space.
pub open spec fn all_white_space(text: Seq<char>) -> bool {
    forall|i: int| 0 <= i < text.len() ==> is_white_space(#[trigger] text[i])
}

/// What remains of a line when the white space at its two ends is taken
/// off: the part from its first character that is not white space to its
/// last one that is not.
pub open spec fn trimmed(line: Seq<char>) -> Seq<char>
    decreases line.len(),
{
    if line.len() > 0 && is_white_space(line[0]) {
        trimmed(line.skip(1))
    } else if line.len() > 0 && is_white_space(line.last()) {
        trimmed(line.drop_last())
    } else {
        line
    }
}

/// Whether `from` and `to` are where what remains of a line starts and
/// ends: what stands before and behind is white space.
pub open spec fn cuts(line: Seq<char>, from: int, to: int) -> bool {
    &&& 0 <= from <= to <= line.len()
    &&& trimmed(line) == line.subrange(from, to)
    &&& all_white_space(line.subrange(0, from))
    &&& all_white_space(line.subrange(to, line.len() as int))
}

/// What remains of a line neither starts nor ends with white space.
pub proof fn lemma_trimmed_ends(line: Seq<char>)
    ensures
        trimmed(line).len() > 0 ==> !is_white_space(trimmed(line)[0]) && !is_white_space(
            trimmed(line).last(),
        ),
    decreases line.len(),
{
    if line.len() > 0 && is_white_space(line[0]) {
        lemma_trimmed_ends(line.skip(1));
    } else if line.len() > 0 && is_white_space(line.last()) {
        lemma_trimmed_ends(line.drop_last());
    }
}

/// What remains of a line is a part of it, and what was taken off its two
/// ends is white space.
pub proof fn lemma_trimmed_is_a_part(line: Seq<char>)
    ensures
        exists|from: int, to: int| cuts(line, from, to),
    decreases line.len(),
{
    let len = line.len() as int;
    if len > 0 && is_white_space(line[0]) {
        let rest = line.skip(1);
        lemma_trimmed_is_a_part(rest);
        let (from, to) = choose|from: int, to: int| cuts(rest, from, to);
        let before = line.subrange(0, from + 1);
        assert(rest.subrange(from, to) =~= line.subrange(from + 1, to + 1));
        assert(rest.subrange(to, rest.len() as int) =~= line.subrange(to + 1, len));
        assert forall|i: int| 0 <= i < before.len() implies is_white_space(
            #[trigger] before[i],
        ) by {
            if i > 0 {
                assert(before[i] == rest.subrange(0, from)[i - 1]);
            }
        }
        assert(cuts(line, from + 1, to + 1));
    } else if len > 0 && is_white_space(line.last()) {
        let rest = line.drop_last();
        lemma_trimmed_is_a_part(rest);
        let (from, to) = choose|from: int, to: int| cuts(rest, from, to);
        let behind = line.subrange(to, len);
        assert(rest.subrange(from, to) =~= line.subrange(from, to));
        assert(rest.subrange(0, from) =~= line.subrange(0, from));
        assert forall|i: int| 0 <= i < behind.len() implies is_white_space(
            #[trigger] behind[i],
        ) by {
            if i < behind.len() - 1 {
                assert(behind[i] == rest.subrange(to, rest.len() as int)[i]);
            }
        }
        assert(cuts(line, from, to));
    } else {
        assert(line.subrange(0, len) =~= line);
        assert(cuts(line, 0, len));
    }
}

/// Nothing remains of a line of white space.
pub proof fn lemma_trimmed_white_space(line: Seq<char>)
    requires
        all_white_space(line),
    ensures
        trimmed(line).len() == 0,
    decreases line.len(),
{
    if line.len() > 0 {
        assert(is_white_space(line[0]));
        assert forall|i: int| 0 <= i < line.skip(1).len() implies is_white_space(
            #[trigger] line.skip(1)[i],
        ) by {
            assert(is_white_space(line[i + 1]));
        }
        lemma_trimmed_white_space(line.skip(1));
    }
}

/// `str::trim` on the line.  The standard library documents it as taking
/// the white space off the two ends of the text, white space being the
/// characters with the Unicode property `White_Space`; that its result is
/// [`trimmed`] is taken on trust.
#[verifier::external_body]
fn trim(line: &str) -> (rest: &str)
    ensures
        rest@ == trimmed(line@),
{
    line.trim()
}

/// Says what has to happen for a line as it was typed: the white space at
/// its two ends does not count, and a line that holds nothing else is
/// passed over.
pub fn interpret_line(input: &str) -> (action: LineAction)
    ensures
        action@ == interpretation(trimmed(input@)),
        all_white_space(input@) ==> action@ == LineView::Skip,
{
    proof {
        if all_white_space(input@) {
            lemma_trimmed_white_space(input@);
            assert(trimmed(input@) =~= Seq::<char>::empty());
        }
    }
    interpret(trim(input))
}

} // verus!
