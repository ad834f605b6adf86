//! Output redirections at the end of a command's arguments.
//!
//! A redirection is an operator followed by a file name.  Only the pairs that
//! close the argument list are redirections; an operator further to the left
//! is an argument like any other.

use vstd::prelude::*;
use vstd::slice::slice_subrange;
use vstd::string::StringExecFns;
use crate::text::copy_strings;

verus! {

/// How a redirection target is opened.
#[derive(PartialEq, Eq, Debug, Clone, Copy, Structural)]
pub enum RedirectionMode {
    /// The file is emptied first (`>`, `1>`, `2>`).
    Overwrite,
    /// The output goes behind what the file holds (`>>`, `1>>`, `2>>`).
    Append,
}

/// The two streams that can be redirected.
#[derive(PartialEq, Eq, Debug, Clone, Copy, Structural)]
pub enum Stream {
    Stdout,
    Stderr,
}

/// A file that receives a stream.
#[derive(Debug)]
pub struct RedirectFile {
    pub filename: String,
    pub mode: RedirectionMode,
}

/// The redirections of one command.
#[derive(Debug)]
pub struct Redirections {
    pub stdout_redirect: Option<RedirectFile>,
    pub stderr_redirect: Option<RedirectFile>,
}

/// A redirection target as a value: the path and the mode.
pub struct RedirectTarget {
    pub path: Seq<char>,
    pub mode: RedirectionMode,
}

/// The redirections of one command as a value.
pub struct RedirectionSpec {
    pub stdout: Option<RedirectTarget>,
    pub stderr: Option<RedirectTarget>,
}

impl View for RedirectFile {
    type V = RedirectTarget;

    open spec fn view(&self) -> RedirectTarget {
        RedirectTarget { path: self.filename@, mode: self.mode }
    }
}

impl Clone for RedirectFile {
    fn clone(&self) -> (copy: RedirectFile)
        ensures
            copy@ == self@,
    {
        RedirectFile { filename: self.filename.clone(), mode: self.mode }
    }
}

/// The target that an optional file stands for.
pub open spec fn target_of(file: Option<RedirectFile>) -> Option<RedirectTarget> {
    match file {
        Some(file) => Some(file@),
        None => None,
    }
}

impl View for Redirections {
    type V = RedirectionSpec;

    open spec fn view(&self) -> RedirectionSpec {
        RedirectionSpec {
            stdout: target_of(self.stdout_redirect),
            stderr: target_of(self.stderr_redirect),
        }
    }
}

impl Default for Redirections {
    fn default() -> (none: Redirections)
        ensures
            none@ == RedirectionSpec::none(),
    {
        Redirections { stdout_redirect: None, stderr_redirect: None }
    }
}

/// How a file is to be opened for a stream.  It is opened for writing, and
/// made where it does not exist.
#[derive(Debug, PartialEq, Eq)]
pub struct OpenRequest {
    pub filename: String,
    /// The file is emptied.
    pub truncate: bool,
    /// What is written goes behind what the file holds.
    pub append: bool,
    /// A directory of that name is an error of its own, found before the
    /// file is opened.
    pub refuse_directory: bool,
}

/// A request to open a file, as a value.
pub struct OpenRequestView {
    pub filename: Seq<char>,
    pub truncate: bool,
    pub append: bool,
    pub refuse_directory: bool,
}

impl View for OpenRequest {
    type V = OpenRequestView;

    open spec fn view(&self) -> OpenRequestView {
        OpenRequestView {
            filename: self.filename@,
            truncate: self.truncate,
            append: self.append,
            refuse_directory: self.refuse_directory,
        }
    }
}

/// Why a file could not be written.
#[derive(Debug)]
pub enum WriteFailure {
    /// The name is that of a directory.
    IsDirectory,
    /// The file could not be opened; the text says why.
    Open(String),
    /// The file is open, but writing failed; the text says why.
    Write(String),
}

impl WriteFailure {
    /// How the failure is worded for the file `filename`.
    pub open spec fn text(self, filename: Seq<char>) -> Seq<char> {
        match self {
            WriteFailure::IsDirectory => "'"@ + filename + "' is a directory"@,
            WriteFailure::Open(reason) => reason@,
            WriteFailure::Write(reason) => reason@,
        }
    }

    /// Words the failure for the file `filename`.
    pub fn describe(&self, filename: &str) -> (text: String)
        ensures
            text@ == self.text(filename@),
    {
        match self {
            WriteFailure::IsDirectory => {
                let mut text = "'".to_string();
                text.append(filename);
                text.append("' is a directory");
                text
            },
            WriteFailure::Open(reason) => reason.clone(),
            WriteFailure::Write(reason) => reason.clone(),
        }
    }
}

impl RedirectTarget {
    /// How the target is opened: emptied to be overwritten, left as it is to
    /// be appended to.
    pub open spec fn open_request(self, refuse_directory: bool) -> OpenRequestView {
        OpenRequestView {
            filename: self.path,
            truncate: self.mode == RedirectionMode::Overwrite,
            append: self.mode == RedirectionMode::Append,
            refuse_directory,
        }
    }
}

impl RedirectFile {
    /// How the file is opened.
    pub fn open_request(&self, refuse_directory: bool) -> (request: OpenRequest)
        ensures
            request@ == self@.open_request(refuse_directory),
    {
        OpenRequest {
            filename: self.filename.clone(),
            truncate: self.mode == RedirectionMode::Overwrite,
            append: self.mode == RedirectionMode::Append,
            refuse_directory,
        }
    }
}

impl Clone for Redirections {
    fn clone(&self) -> (copy: Redirections)
        ensures
            copy@ == self@,
    {
        Redirections {
            stdout_redirect: match &self.stdout_redirect {
                Some(file) => Some(file.clone()),
                None => None,
            },
            stderr_redirect: match &self.stderr_redirect {
                Some(file) => Some(file.clone()),
                None => None,
            },
        }
    }
}

impl RedirectionSpec {
    /// Nothing is redirected.
    pub open spec fn none() -> RedirectionSpec {
        RedirectionSpec { stdout: None, stderr: None }
    }

    /// One stream is redirected.
    pub open spec fn single(stream: Stream, target: RedirectTarget) -> RedirectionSpec {
        match stream {
            Stream::Stdout => RedirectionSpec { stdout: Some(target), stderr: None },
            Stream::Stderr => RedirectionSpec { stdout: None, stderr: Some(target) },
        }
    }

    /// The target of a stream, if it is redirected.
    pub open spec fn target(self, stream: Stream) -> Option<RedirectTarget> {
        match stream {
            Stream::Stdout => self.stdout,
            Stream::Stderr => self.stderr,
        }
    }

    /// These redirections, and for a stream that they leave alone what
    /// `earlier` says of it.
    pub open spec fn or(self, earlier: RedirectionSpec) -> RedirectionSpec {
        RedirectionSpec {
            stdout: if self.stdout is Some { self.stdout } else { earlier.stdout },
            stderr: if self.stderr is Some { self.stderr } else { earlier.stderr },
        }
    }
}

/// The stream and the mode that a redirection operator names.
pub open spec fn operator(token: Seq<char>) -> Option<(Stream, RedirectionMode)> {
    if token == ">"@ || token == "1>"@ {
        Some((Stream::Stdout, RedirectionMode::Overwrite))
    } else if token == "2>"@ {
        Some((Stream::Stderr, RedirectionMode::Overwrite))
    } else if token == ">>"@ || token == "1>>"@ {
        Some((Stream::Stdout, RedirectionMode::Append))
    } else if token == "2>>"@ {
        Some((Stream::Stderr, RedirectionMode::Append))
    } else {
        None
    }
}

/// Whether the arguments end in an operator and a file name.
pub open spec fn ends_in_redirection(tokens: Seq<Seq<char>>) -> bool {
    tokens.len() >= 2 && operator(tokens[tokens.len() - 2]) is Some
}

/// The redirection that the last two arguments spell.
pub open spec fn last_redirection(tokens: Seq<Seq<char>>) -> RedirectionSpec
    recommends
        ends_in_redirection(tokens),
{
    let (stream, mode) = operator(tokens[tokens.len() - 2])->Some_0;
    RedirectionSpec::single(stream, RedirectTarget { path: tokens.last(), mode })
}

/// The arguments that remain once the redirections at their end are taken
/// off, and those redirections.  Of two redirections of one stream the one
/// nearer the end counts.
pub open spec fn resolve(tokens: Seq<Seq<char>>) -> (Seq<Seq<char>>, RedirectionSpec)
    decreases tokens.len(),
{
    if ends_in_redirection(tokens) {
        let (rest, earlier) = resolve(tokens.take(tokens.len() - 2));
        (rest, last_redirection(tokens).or(earlier))
    } else {
        (tokens, RedirectionSpec::none())
    }
}

/// Whether a redirection starts at `at`, when those behind the first
/// `kept` of `len` arguments are redirections.
pub open spec fn starts_redirection(kept: int, len: int, at: int) -> bool {
    kept <= at && at + 1 < len && (at - kept) % 2 == 0
}

/// What is taken off the end of the arguments is a run of redirections, and
/// the longest there is: the arguments that remain are the front of the
/// arguments, what was taken consists of pairs that start with an operator,
/// and the arguments that remain do not end in another such pair.
pub proof fn lemma_resolve_takes_redirections_only(tokens: Seq<Seq<char>>)
    ensures
        resolve(tokens).0.len() <= tokens.len(),
        (tokens.len() - resolve(tokens).0.len()) % 2 == 0,
        resolve(tokens).0 == tokens.take(resolve(tokens).0.len() as int),
        !ends_in_redirection(resolve(tokens).0),
        forall|at: int| #[trigger]
            starts_redirection(resolve(tokens).0.len() as int, tokens.len() as int, at)
                ==> operator(tokens[at]) is Some,
    decreases tokens.len(),
{
    if ends_in_redirection(tokens) {
        let front = tokens.take(tokens.len() - 2);
        lemma_resolve_takes_redirections_only(front);
        let kept = resolve(tokens).0.len() as int;
        assert forall|at: int| #[trigger]
            starts_redirection(kept, tokens.len() as int, at) implies operator(tokens[at])
            is Some by {
            if at != tokens.len() - 2 {
                assert(starts_redirection(kept, front.len() as int, at));
            }
        }
    }
}

/// Whether the redirection that starts at `at` is the last one for
/// `stream`, and names `target`.
pub open spec fn is_last_for(
    tokens: Seq<Seq<char>>,
    kept: int,
    stream: Stream,
    at: int,
    target: RedirectTarget,
) -> bool {
    &&& starts_redirection(kept, tokens.len() as int, at)
    &&& operator(tokens[at]) == Some((stream, target.mode))
    &&& tokens[at + 1] == target.path
    &&& forall|later: int|
        at < later && #[trigger] starts_redirection(kept, tokens.len() as int, later) ==> operator(
            tokens[later],
        )->Some_0.0 != stream
}

/// Whether no redirection is for `stream`.
pub open spec fn none_for(tokens: Seq<Seq<char>>, kept: int, stream: Stream) -> bool {
    forall|at: int| #[trigger]
        starts_redirection(kept, tokens.len() as int, at) ==> operator(tokens[at])->Some_0.0
            != stream
}

/// Of the redirections of one stream the one nearest the end counts: the
/// target of a stream is what the last redirection of that stream names, and
/// a stream has no target when no redirection is for it.
pub proof fn lemma_last_redirection_wins(tokens: Seq<Seq<char>>, stream: Stream)
    ensures
        match resolve(tokens).1.target(stream) {
            Some(target) => exists|at: int|
                is_last_for(tokens, resolve(tokens).0.len() as int, stream, at, target),
            None => none_for(tokens, resolve(tokens).0.len() as int, stream),
        },
    decreases tokens.len(),
{
    let kept = resolve(tokens).0.len() as int;
    let len = tokens.len() as int;
    if ends_in_redirection(tokens) {
        let front = tokens.take(len - 2);
        let last = len - 2;
        lemma_last_redirection_wins(front, stream);
        lemma_resolve_takes_redirections_only(front);
        if operator(tokens[last])->Some_0.0 == stream {
            let target = resolve(tokens).1.target(stream)->Some_0;
            assert(is_last_for(tokens, kept, stream, last, target));
        } else {
            match resolve(front).1.target(stream) {
                Some(target) => {
                    let at = choose|at: int| is_last_for(front, kept, stream, at, target);
                    assert forall|later: int|
                        at < later && #[trigger] starts_redirection(
                            kept,
                            len,
                            later,
                        ) implies operator(tokens[later])->Some_0.0 != stream by {
                        if later != last {
                            assert(starts_redirection(kept, len - 2, later));
                        }
                    }
                    assert(is_last_for(tokens, kept, stream, at, target));
                },
                None => {
                    assert forall|at: int| #[trigger]
                        starts_redirection(kept, len, at) implies operator(tokens[at])->Some_0.0
                        != stream by {
                        if at != last {
                            assert(starts_redirection(kept, len - 2, at));
                        }
                    }
                },
            }
        }
    }
}

/// Redirections of the two streams can be written in either order.
pub proof fn lemma_order_of_streams(
    tokens: Seq<Seq<char>>,
    one: Seq<char>,
    one_file: Seq<char>,
    other: Seq<char>,
    other_file: Seq<char>,
)
    requires
        operator(one) is Some,
        operator(other) is Some,
        operator(one)->Some_0.0 != operator(other)->Some_0.0,
    ensures
        resolve(tokens + seq![one, one_file, other, other_file]) == resolve(
            tokens + seq![other, other_file, one, one_file],
        ),
{
    let this_way = tokens + seq![one, one_file, other, other_file];
    let that_way = tokens + seq![other, other_file, one, one_file];
    let this_front = tokens + seq![one, one_file];
    let that_front = tokens + seq![other, other_file];
    assert(this_way.take(this_way.len() - 2) =~= this_front);
    assert(that_way.take(that_way.len() - 2) =~= that_front);
    assert(this_front.take(this_front.len() - 2) =~= tokens);
    assert(that_front.take(that_front.len() - 2) =~= tokens);
    assert(resolve(this_way) == (
        resolve(this_front).0,
        last_redirection(this_way).or(resolve(this_front).1),
    ));
    assert(resolve(that_way) == (
        resolve(that_front).0,
        last_redirection(that_way).or(resolve(that_front).1),
    ));
}

/// Reads a redirection operator.
pub fn redirect_operator(token: &str) -> (op: Option<(Stream, RedirectionMode)>)
    ensures
        op == operator(token@),
{
    if token.eq(">") || token.eq("1>") {
        Some((Stream::Stdout, RedirectionMode::Overwrite))
    } else if token.eq("2>") {
        Some((Stream::Stderr, RedirectionMode::Overwrite))
    } else if token.eq(">>") || token.eq("1>>") {
        Some((Stream::Stdout, RedirectionMode::Append))
    } else if token.eq("2>>") {
        Some((Stream::Stderr, RedirectionMode::Append))
    } else {
        None
    }
}

/// Takes the redirections off the end of a command's arguments.
///
/// Returns the arguments that remain and the redirections that were found.
pub fn parse_redirections(args_slice: &[String]) -> (result: (Vec<String>, Redirections))
    ensures
        (result.0.deep_view(), result.1@) == resolve(args_slice.deep_view()),
{
    let ghost all = args_slice.deep_view();
    let mut red = Redirections::default();
    let mut len = args_slice.len();
    assert(all.take(len as int) =~= all);
    while len >= 2
        invariant
            all == args_slice.deep_view(),
            len <= args_slice.len(),
            resolve(all).0 == resolve(all.take(len as int)).0,
            resolve(all).1 == red@.or(resolve(all.take(len as int)).1),
        ensures
            len <= args_slice.len(),
            resolve(all) == (all.take(len as int), red@),
        decreases len,
    {
        let ghost here = all.take(len as int);
        assert(here.take(len - 2) =~= all.take(len - 2));
        match redirect_operator(args_slice[len - 2].as_str()) {
            None => {
                break;
            },
            Some((stream, mode)) => {
                let file = RedirectFile { filename: args_slice[len - 1].clone(), mode };
                match stream {
                    Stream::Stdout => {
                        if red.stdout_redirect.is_none() {
                            red.stdout_redirect = Some(file);
                        }
                    },
                    Stream::Stderr => {
                        if red.stderr_redirect.is_none() {
                            red.stderr_redirect = Some(file);
                        }
                    },
                }
                len = len - 2;
            },
        }
    }
    let command_args = copy_strings(slice_subrange(args_slice, 0, len));
    assert(command_args.deep_view() =~= all.take(len as int));
    (command_args, red)
}

} // verus!
