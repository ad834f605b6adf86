//! Splitting a command line into arguments.
//!
//! The line is read once from left to right.  Single quotes keep everything
//! between them as it is; double quotes do the same except that a backslash
//! still escapes `$`, a backquote, `"` and `\`; outside quotes a backslash
//! escapes whatever follows it, and blanks separate the arguments.

use vstd::prelude::*;

verus! {

/// Escapes the character behind it.
pub const BACKSLASH: char = '\\';

/// Opens and closes a quote in which nothing is special.
pub const SINGLE_QUOTE: char = '\'';

/// Opens and closes a quote in which a backslash still escapes.
pub const DOUBLE_QUOTE: char = '"';

/// The two kinds of quotes.
#[derive(Clone, Copy, Debug, PartialEq, Eq, Structural)]
pub enum QuoteKind {
    Single,
    Double,
}

/// Why a line could not be split.
#[derive(Clone, Copy, Debug, PartialEq, Eq, Structural)]
pub enum ParseError {
    /// The line ended inside a quote of this kind.
    UnterminatedQuote(QuoteKind),
}

impl ParseError {
    /// What the error says.
    pub open spec fn text(self) -> Seq<char> {
        match self {
            ParseError::UnterminatedQuote(QuoteKind::Double) => "Unterminated double quote in arguments"@,
            ParseError::UnterminatedQuote(QuoteKind::Single) => "Unterminated single quote in arguments"@,
        }
    }

    /// Words the error for the user.
    pub fn message(&self) -> (message: String)
        ensures
            message@ == self.text(),
    {
        match self {
            ParseError::UnterminatedQuote(QuoteKind::Double) => "Unterminated double quote in arguments".to_string(),
            ParseError::UnterminatedQuote(QuoteKind::Single) => "Unterminated single quote in arguments".to_string(),
        }
    }
}

/// Where the scanner stands with respect to quotes.
#[derive(Clone, Copy, Debug, PartialEq, Eq, Structural)]
pub enum QuoteState {
    Unquoted,
    Single,
    Double,
}

/// The scanner between two characters of the line.
pub struct Scan {
    pub quote: QuoteState,
    /// A backslash has been read and waits for the character that it escapes.
    /// This never holds inside single quotes.
    pub escape: bool,
    /// The characters of the argument that is being read.
    pub current: Seq<char>,
    /// The arguments that are complete.
    pub tokens: Seq<Seq<char>>,
}

/// A blank separates arguments outside quotes.
pub open spec fn is_blank(c: char) -> bool {
    c == ' ' || c == '\t'
}

/// The characters that a backslash escapes inside double quotes.
pub open spec fn escapable_in_double_quotes(c: char) -> bool {
    c == '$' || c == '`' || c == '"' || c == '\\'
}

impl Scan {
    /// The scanner before the first character.
    pub open spec fn start() -> Scan {
        Scan { quote: QuoteState::Unquoted, escape: false, current: Seq::empty(), tokens: Seq::empty() }
    }

    /// `c` becomes part of the current argument.
    pub open spec fn keep(self, c: char) -> Scan {
        Scan { current: self.current.push(c), ..self }
    }

    /// The current argument ends here; an empty one leaves no trace.
    pub open spec fn flush(self) -> Scan {
        if self.current.len() > 0 {
            Scan { current: Seq::empty(), tokens: self.tokens.push(self.current), ..self }
        } else {
            self
        }
    }

    /// A quote opens or closes here.
    pub open spec fn enter(self, quote: QuoteState) -> Scan {
        Scan { quote, ..self }
    }

    /// The scanner after it has read `c`.
    pub open spec fn step(self, c: char) -> Scan {
        if self.escape {
            let after = Scan { escape: false, ..self };
            if self.quote == QuoteState::Double && !escapable_in_double_quotes(c) {
                after.keep('\\').keep(c)
            } else {
                after.keep(c)
            }
        } else if c == '\'' {
            match self.quote {
                QuoteState::Unquoted => self.enter(QuoteState::Single),
                QuoteState::Single => self.enter(QuoteState::Unquoted),
                QuoteState::Double => self.keep(c),
            }
        } else if c == '"' {
            match self.quote {
                QuoteState::Unquoted => self.enter(QuoteState::Double),
                QuoteState::Double => self.enter(QuoteState::Unquoted),
                QuoteState::Single => self.keep(c),
            }
        } else if c == '\\' {
            match self.quote {
                QuoteState::Single => self.keep(c),
                _ => Scan { escape: true, ..self },
            }
        } else if is_blank(c) {
            match self.quote {
                QuoteState::Unquoted => self.flush(),
                _ => self.keep(c),
            }
        } else {
            self.keep(c)
        }
    }

    /// The scanner after it has read all of `text`, one character after the other.
    pub open spec fn feed(self, text: Seq<char>) -> Scan
        decreases text.len(),
    {
        if text.len() == 0 {
            self
        } else {
            self.feed(text.drop_last()).step(text.last())
        }
    }

    /// What the line comes to when it ends here.  A backslash that nothing
    /// follows stands for itself.
    pub open spec fn finish(self) -> Result<Seq<Seq<char>>, ParseError> {
        match self.quote {
            QuoteState::Double => Err(ParseError::UnterminatedQuote(QuoteKind::Double)),
            QuoteState::Single => Err(ParseError::UnterminatedQuote(QuoteKind::Single)),
            QuoteState::Unquoted => Ok(
                if self.escape {
                    self.keep('\\').flush().tokens
                } else {
                    self.flush().tokens
                },
            ),
        }
    }
}

/// The arguments of a command line, or the quote that it leaves open.
pub open spec fn tokenize(line: Seq<char>) -> Result<Seq<Seq<char>>, ParseError> {
    Scan::start().feed(line).finish()
}

/// Reading `head` and then `tail` is reading `head + tail`.
pub proof fn lemma_feed_concat(from: Scan, head: Seq<char>, tail: Seq<char>)
    ensures
        from.feed(head + tail) == from.feed(head).feed(tail),
    decreases tail.len(),
{
    if tail.len() > 0 {
        lemma_feed_concat(from, head, tail.drop_last());
        assert((head + tail).drop_last() =~= head + tail.drop_last());
    }
}

/// Reading one character is one step.
pub proof fn lemma_feed_one(from: Scan, c: char)
    ensures
        from.feed(seq![c]) == from.step(c),
{
    assert(from.feed(seq![c].drop_last()) == from);
}

/// Whether a text consists of blanks.
pub open spec fn all_blank(text: Seq<char>) -> bool {
    forall|i: int| 0 <= i < text.len() ==> is_blank(#[trigger] text[i])
}

/// Outside quotes blanks collapse: any number of them, one or more, do
/// what a single space does.
pub proof fn lemma_blanks_collapse(from: Scan, blanks: Seq<char>)
    requires
        from.quote == QuoteState::Unquoted,
        !from.escape,
        blanks.len() > 0,
        all_blank(blanks),
    ensures
        from.feed(blanks) == from.step(' '),
    decreases blanks.len(),
{
    assert(is_blank(blanks[blanks.len() - 1]));
    if blanks.len() > 1 {
        assert(all_blank(blanks.drop_last())) by {
            assert forall|i: int| 0 <= i < blanks.drop_last().len() implies is_blank(
                #[trigger] blanks.drop_last()[i],
            ) by {
                assert(is_blank(blanks[i]));
            }
        }
        lemma_blanks_collapse(from, blanks.drop_last());
    } else {
        assert(from.feed(blanks.drop_last()) == from);
    }
}

/// A line of blanks, or of nothing at all, has no arguments.
pub proof fn lemma_blank_line(line: Seq<char>)
    requires
        all_blank(line),
    ensures
        tokenize(line) == Ok::<Seq<Seq<char>>, ParseError>(Seq::empty()),
{
    if line.len() > 0 {
        lemma_blanks_collapse(Scan::start(), line);
    }
}

/// Blanks between two parts of a line that both end outside quotes count
/// once: the line splits as it does with one space in their place.
pub proof fn lemma_blanks_count_once(head: Seq<char>, blanks: Seq<char>, tail: Seq<char>)
    requires
        Scan::start().feed(head).quote == QuoteState::Unquoted,
        !Scan::start().feed(head).escape,
        blanks.len() > 0,
        all_blank(blanks),
    ensures
        tokenize(head + blanks + tail) == tokenize(head + seq![' '] + tail),
{
    let from = Scan::start().feed(head);
    lemma_feed_concat(Scan::start(), head + blanks, tail);
    lemma_feed_concat(Scan::start(), head, blanks);
    lemma_feed_concat(Scan::start(), head + seq![' '], tail);
    lemma_feed_concat(Scan::start(), head, seq![' ']);
    lemma_blanks_collapse(from, blanks);
    lemma_feed_one(from, ' ');
}

/// Whether no argument is empty.
pub open spec fn no_empty_token(tokens: Seq<Seq<char>>) -> bool {
    forall|i: int| 0 <= i < tokens.len() ==> (#[trigger] tokens[i]).len() > 0
}

/// The scanner never completes an empty argument.
pub proof fn lemma_feed_completes_no_empty_token(from: Scan, text: Seq<char>)
    requires
        no_empty_token(from.tokens),
    ensures
        no_empty_token(from.feed(text).tokens),
    decreases text.len(),
{
    if text.len() > 0 {
        lemma_feed_completes_no_empty_token(from, text.drop_last());
    }
}

/// No argument of a line is empty: quotes with nothing between them leave
/// no argument.
pub proof fn lemma_tokens_not_empty(line: Seq<char>)
    ensures
        tokenize(line) matches Ok(tokens) ==> no_empty_token(tokens),
{
    lemma_feed_completes_no_empty_token(Scan::start(), line);
}

/// A scanner that is fed a line one character at a time.
pub struct Scanner {
    quote: QuoteState,
    escape: bool,
    current: String,
    tokens: Vec<String>,
}

impl View for Scanner {
    type V = Scan;

    closed spec fn view(&self) -> Scan {
        Scan {
            quote: self.quote,
            escape: self.escape,
            current: self.current@,
            tokens: self.tokens.deep_view(),
        }
    }
}

impl Scanner {
    /// A scanner that has read nothing yet.
    pub fn new() -> (scanner: Scanner)
        ensures
            scanner@ == Scan::start(),
    {
        let scanner = Scanner {
            quote: QuoteState::Unquoted,
            escape: false,
            current: String::new(),
            tokens: Vec::new(),
        };
        assert(scanner.tokens.deep_view() =~= Seq::<Seq<char>>::empty());
        scanner
    }

    /// Ends the current argument.
    fn flush(&mut self)
        ensures
            final(self)@ == old(self)@.flush(),
    {
        if !self.current.as_str().is_empty() {
            let mut done = String::new();
            std::mem::swap(&mut self.current, &mut done);
            let ghost before = self.tokens.deep_view();
            self.tokens.push(done);
            assert(self.tokens.deep_view() =~= before.push(done@));
        }
    }

    /// Reads the next character of the line.
    pub fn step(&mut self, c: char)
        ensures
            final(self)@ == old(self)@.step(c),
    {
        if self.escape {
            self.escape = false;
            if self.quote == QuoteState::Double && !(c == '$' || c == '`' || c == DOUBLE_QUOTE
                || c == BACKSLASH) {
                self.current.push(BACKSLASH);
            }
            self.current.push(c);
        } else if c == SINGLE_QUOTE {
            match self.quote {
                QuoteState::Unquoted => self.quote = QuoteState::Single,
                QuoteState::Single => self.quote = QuoteState::Unquoted,
                QuoteState::Double => self.current.push(c),
            }
        } else if c == DOUBLE_QUOTE {
            match self.quote {
                QuoteState::Unquoted => self.quote = QuoteState::Double,
                QuoteState::Double => self.quote = QuoteState::Unquoted,
                QuoteState::Single => self.current.push(c),
            }
        } else if c == BACKSLASH {
            match self.quote {
                QuoteState::Single => self.current.push(c),
                _ => self.escape = true,
            }
        } else if c == ' ' || c == '\t' {
            match self.quote {
                QuoteState::Unquoted => self.flush(),
                _ => self.current.push(c),
            }
        } else {
            self.current.push(c);
        }
    }

    /// Ends the line.
    pub fn finish(self) -> (result: Result<Vec<String>, ParseError>)
        ensures
            self@.finish() == match result {
                Ok(tokens) => Ok::<Seq<Seq<char>>, ParseError>(tokens.deep_view()),
                Err(e) => Err(e),
            },
    {
        let mut scanner = self;
        match scanner.quote {
            QuoteState::Double => Err(ParseError::UnterminatedQuote(QuoteKind::Double)),
            QuoteState::Single => Err(ParseError::UnterminatedQuote(QuoteKind::Single)),
            QuoteState::Unquoted => {
                if scanner.escape {
                    scanner.current.push(BACKSLASH);
                }
                scanner.flush();
                Ok(scanner.tokens)
            },
        }
    }
}

/// Splits a command line into its arguments.
///
/// The result is `Err` exactly when the line ends inside a quote.
pub fn parse_tokens(input_args: &str) -> (result: Result<Vec<String>, ParseError>)
    ensures
        tokenize(input_args@) == match result {
            Ok(tokens) => Ok::<Seq<Seq<char>>, ParseError>(tokens.deep_view()),
            Err(e) => Err(e),
        },
{
    let mut scanner = Scanner::new();
    for c in chars: input_args.chars()
        invariant
            chars.seq() == input_args@,
            scanner@ == Scan::start().feed(input_args@.take(chars.index() as int)),
    {
        scanner.step(c);
        assert(input_args@.take(chars.index() + 1).drop_last() =~= input_args@.take(
            chars.index() as int,
        ));
    }
    assert(input_args@.take(input_args@.len() as int) =~= input_args@);
    scanner.finish()
}

} // verus!

