//! Writing arguments back as a line.
//!
//! An argument that holds a blank is written between single quotes, any
//! other as it is, and one space separates two arguments.  Splitting such a
//! line gives the arguments back exactly when no argument holds a character
//! that the quoting does not protect.

use vstd::prelude::*;
use vstd::string::StringExecFns;
use crate::parser::{
    is_blank, lemma_feed_concat, lemma_feed_one, lemma_tokens_not_empty, tokenize, ParseError,
    QuoteState, Scan, SINGLE_QUOTE,
};

verus! {

/// Whether an argument holds a blank.
pub open spec fn has_blank(token: Seq<char>) -> bool {
    exists|i: int| 0 <= i < token.len() && is_blank(#[trigger] token[i])
}

/// An argument as it is written back: between single quotes when it holds a
/// blank, unchanged otherwise.
pub open spec fn requote_token(token: Seq<char>) -> Seq<char> {
    if has_blank(token) {
        seq!['\''] + token + seq!['\'']
    } else {
        token
    }
}

/// A line that is written back from its arguments: each argument requoted,
/// with one space between two of them.
pub open spec fn requote_line(tokens: Seq<Seq<char>>) -> Seq<char>
    decreases tokens.len(),
{
    if tokens.len() == 0 {
        Seq::empty()
    } else if tokens.len() == 1 {
        requote_token(tokens[0])
    } else {
        requote_line(tokens.drop_last()) + seq![' '] + requote_token(tokens.last())
    }
}

/// Whether a string holds a blank.
fn contains_blank(token: &str) -> (found: bool)
    ensures
        found == has_blank(token@),
{
    let mut found = false;
    for c in chars: token.chars()
        invariant
            chars.seq() == token@,
            found == has_blank(token@.take(chars.index() as int)),
    {
        proof {
            let before = token@.take(chars.index() as int);
            let after = token@.take(chars.index() + 1);
            if has_blank(before) {
                let i = choose|i: int| 0 <= i < before.len() && is_blank(#[trigger] before[i]);
                assert(is_blank(after[i]));
            }
            if is_blank(c) {
                assert(is_blank(after[chars.index() as int]));
            }
            if has_blank(after) {
                let i = choose|i: int| 0 <= i < after.len() && is_blank(#[trigger] after[i]);
                assert(i < before.len() ==> is_blank(before[i]));
            }
        }
        if c == ' ' || c == '\t' {
            found = true;
        }
    }
    assert(token@.take(token@.len() as int) =~= token@);
    found
}

/// Writes arguments back as one line: an argument that holds a blank goes
/// between single quotes, and one space separates two arguments.
pub fn requote(tokens: &[String]) -> (line: String)
    ensures
        line@ == requote_line(tokens.deep_view()),
{
    let mut line = String::new();
    let mut i: usize = 0;
    while i < tokens.len()
        invariant
            i <= tokens.len(),
            line@ == requote_line(tokens.deep_view().take(i as int)),
        decreases tokens.len() - i,
    {
        assert(tokens.deep_view().take(i + 1).drop_last() =~= tokens.deep_view().take(i as int));
        if i > 0 {
            line.push(' ');
        }
        let token = tokens[i].as_str();
        if contains_blank(token) {
            line.push(SINGLE_QUOTE);
            line.append(token);
            line.push(SINGLE_QUOTE);
        } else {
            line.append(token);
        }
        i += 1;
    }
    assert(tokens.deep_view().take(tokens.len() as int) =~= tokens.deep_view());
    line
}

/// Whether a text holds no single quote.
pub open spec fn quote_free(text: Seq<char>) -> bool {
    forall|i: int| 0 <= i < text.len() ==> #[trigger] text[i] != '\''
}

/// Whether an argument reads back as itself after requoting.  Between single
/// quotes only a single quote is special.  An argument that is written bare
/// must hold neither quote, and a backslash only as the very last character of
/// the line, where nothing follows that it could escape.
pub open spec fn token_survives_requoting(token: Seq<char>, ends_line: bool) -> bool {
    &&& token.len() > 0
    &&& quote_free(token)
    &&& !has_blank(token) ==> forall|i: int|
        0 <= i < token.len() ==> {
            &&& #[trigger] token[i] != '"'
            &&& token[i] == '\\' ==> ends_line && i == token.len() - 1
        }
}

/// Whether every argument reads back as itself after requoting.
pub open spec fn survives_requoting(tokens: Seq<Seq<char>>) -> bool {
    forall|k: int|
        0 <= k < tokens.len() ==> token_survives_requoting(
            #[trigger] tokens[k],
            k == tokens.len() - 1,
        )
}

/// Whether a bare argument leaves the scanner waiting behind a backslash.
pub open spec fn ends_in_bare_backslash(token: Seq<char>) -> bool {
    token.len() > 0 && !has_blank(token) && token.last() == '\\'
}

/// Characters that mean nothing to the scanner outside quotes are kept as
/// they come.
proof fn lemma_feed_ordinary(from: Scan, text: Seq<char>)
    requires
        from.quote == QuoteState::Unquoted,
        !from.escape,
        forall|i: int|
            0 <= i < text.len() ==> {
                &&& #[trigger] text[i] != '\''
                &&& text[i] != '"'
                &&& text[i] != '\\'
                &&& !is_blank(text[i])
            },
    ensures
        from.feed(text) == (Scan { current: from.current + text, ..from }),
    decreases text.len(),
{
    if text.len() > 0 {
        lemma_feed_ordinary(from, text.drop_last());
        assert(from.current + text =~= (from.current + text.drop_last()).push(text.last()));
    }
}

/// Inside single quotes everything but a single quote is kept as it comes.
proof fn lemma_feed_in_single_quotes(from: Scan, text: Seq<char>)
    requires
        from.quote == QuoteState::Single,
        !from.escape,
        forall|i: int| 0 <= i < text.len() ==> #[trigger] text[i] != '\'',
    ensures
        from.feed(text) == (Scan { current: from.current + text, ..from }),
    decreases text.len(),
{
    if text.len() > 0 {
        lemma_feed_in_single_quotes(from, text.drop_last());
        assert(from.current + text =~= (from.current + text.drop_last()).push(text.last()));
    }
}

/// What the scanner makes of one requoted argument.
proof fn lemma_feed_requoted_token(from: Scan, token: Seq<char>, ends_line: bool)
    requires
        from.quote == QuoteState::Unquoted,
        !from.escape,
        token_survives_requoting(token, ends_line),
    ensures
        from.feed(requote_token(token)) == if ends_in_bare_backslash(token) {
            Scan { current: from.current + token.drop_last(), escape: true, ..from }
        } else {
            Scan { current: from.current + token, ..from }
        },
{
    if has_blank(token) {
        let open = seq!['\''];
        let inside = from.enter(QuoteState::Single);
        lemma_feed_concat(from, open + token, open);
        lemma_feed_concat(from, open, token);
        lemma_feed_one(from, '\'');
        lemma_feed_in_single_quotes(inside, token);
        lemma_feed_one(inside.feed(token), '\'');
    } else if token.last() == '\\' {
        let body = token.drop_last();
        lemma_feed_concat(from, body, seq!['\\']);
        assert forall|i: int| 0 <= i < body.len() implies {
            &&& #[trigger] body[i] != '\''
            &&& body[i] != '"'
            &&& body[i] != '\\'
            &&& !is_blank(body[i])
        } by {
            assert(body[i] == token[i]);
        }
        lemma_feed_ordinary(from, body);
        lemma_feed_one(from.feed(body), '\\');
    } else {
        lemma_feed_ordinary(from, token);
    }
}

/// What the scanner holds after it has read a requoted line.
proof fn lemma_feed_requoted_line(tokens: Seq<Seq<char>>)
    requires
        tokens.len() > 0,
        survives_requoting(tokens),
    ensures
        Scan::start().feed(requote_line(tokens)) == if ends_in_bare_backslash(tokens.last()) {
            Scan {
                quote: QuoteState::Unquoted,
                escape: true,
                current: tokens.last().drop_last(),
                tokens: tokens.drop_last(),
            }
        } else {
            Scan {
                quote: QuoteState::Unquoted,
                escape: false,
                current: tokens.last(),
                tokens: tokens.drop_last(),
            }
        },
    decreases tokens.len(),
{
    let last = tokens.last();
    if tokens.len() == 1 {
        lemma_feed_requoted_token(Scan::start(), last, true);
        assert(tokens.drop_last() =~= Seq::<Seq<char>>::empty());
    } else {
        let front = tokens.drop_last();
        assert forall|k: int| 0 <= k < front.len() implies token_survives_requoting(
            #[trigger] front[k],
            k == front.len() - 1,
        ) by {
            assert(token_survives_requoting(tokens[k], false));
        }
        lemma_feed_requoted_line(front);
        assert(token_survives_requoting(tokens[tokens.len() - 2], false));
        let before = Scan::start().feed(requote_line(front));
        let between = before.step(' ');
        assert(between == (Scan {
            quote: QuoteState::Unquoted,
            escape: false,
            current: Seq::<char>::empty(),
            tokens: front,
        })) by {
            assert(front.drop_last().push(front.last()) =~= front);
        }
        lemma_feed_concat(Scan::start(), requote_line(front) + seq![' '], requote_token(last));
        lemma_feed_concat(Scan::start(), requote_line(front), seq![' ']);
        lemma_feed_one(before, ' ');
        lemma_feed_requoted_token(between, last, true);
    }
}

/// The characters that only single quotes protect: a double quote opens a
/// quote of its own, and a backslash escapes what follows it.
pub open spec fn is_heavy(c: char) -> bool {
    c == '"' || c == '\\'
}

/// How many heavy characters a text holds.
pub open spec fn heavy_in(text: Seq<char>) -> nat
    decreases text.len(),
{
    if text.len() == 0 {
        0
    } else {
        heavy_in(text.drop_last()) + if is_heavy(text.last()) {
            1nat
        } else {
            0nat
        }
    }
}

/// How many heavy characters arguments hold.
pub open spec fn heavy_in_all(tokens: Seq<Seq<char>>) -> nat
    decreases tokens.len(),
{
    if tokens.len() == 0 {
        0
    } else {
        heavy_in_all(tokens.drop_last()) + heavy_in(tokens.last())
    }
}

/// How many heavy characters the scanner has kept, the backslash that it
/// waits behind among them.
pub open spec fn heavy_kept(scan: Scan) -> nat {
    heavy_in_all(scan.tokens) + heavy_in(scan.current) + if scan.escape {
        1nat
    } else {
        0nat
    }
}

/// Whether the scanner keeps every heavy character of `text`.
pub open spec fn keeps_heavy(from: Scan, text: Seq<char>) -> bool {
    heavy_kept(from.feed(text)) == heavy_kept(from) + heavy_in(text)
}

/// A character more is a heavy character more if it is heavy.
proof fn lemma_heavy_in_push(text: Seq<char>, c: char)
    ensures
        heavy_in(text.push(c)) == heavy_in(text) + if is_heavy(c) {
            1nat
        } else {
            0nat
        },
{
    assert(text.push(c).drop_last() =~= text);
}

/// Two texts hold the heavy characters of both.
proof fn lemma_heavy_in_concat(head: Seq<char>, tail: Seq<char>)
    ensures
        heavy_in(head + tail) == heavy_in(head) + heavy_in(tail),
    decreases tail.len(),
{
    if tail.len() == 0 {
        assert(head + tail =~= head);
    } else {
        lemma_heavy_in_concat(head, tail.drop_last());
        assert((head + tail).drop_last() =~= head + tail.drop_last());
    }
}

/// An argument more adds its heavy characters.
proof fn lemma_heavy_in_all_push(tokens: Seq<Seq<char>>, token: Seq<char>)
    ensures
        heavy_in_all(tokens.push(token)) == heavy_in_all(tokens) + heavy_in(token),
{
    assert(tokens.push(token).drop_last() =~= tokens);
}

/// The scanner keeps no heavy character that it has not read.
proof fn lemma_step_keeps_no_more(from: Scan, c: char)
    ensures
        heavy_kept(from.step(c)) <= heavy_kept(from) + heavy_in(seq![c]),
        heavy_in(seq![c]) == if is_heavy(c) {
            1nat
        } else {
            0nat
        },
{
    lemma_heavy_in_push(Seq::empty(), c);
    assert(Seq::<char>::empty().push(c) =~= seq![c]);
    lemma_heavy_in_push(from.current, c);
    lemma_heavy_in_push(from.current, '\\');
    lemma_heavy_in_push(from.current.push('\\'), c);
    lemma_heavy_in_all_push(from.tokens, from.current);
}

/// The scanner keeps no heavy character that it has not read.
proof fn lemma_feed_keeps_no_more(from: Scan, text: Seq<char>)
    ensures
        heavy_kept(from.feed(text)) <= heavy_kept(from) + heavy_in(text),
    decreases text.len(),
{
    if text.len() > 0 {
        lemma_feed_keeps_no_more(from, text.drop_last());
        lemma_step_keeps_no_more(from.feed(text.drop_last()), text.last());
    }
}

/// A scanner that keeps every heavy character of a text keeps every heavy
/// character of each part of it.
proof fn lemma_keeps_heavy_split(from: Scan, head: Seq<char>, tail: Seq<char>)
    requires
        keeps_heavy(from, head + tail),
    ensures
        keeps_heavy(from, head),
        keeps_heavy(from.feed(head), tail),
{
    lemma_feed_concat(from, head, tail);
    lemma_heavy_in_concat(head, tail);
    lemma_feed_keeps_no_more(from, head);
    lemma_feed_keeps_no_more(from.feed(head), tail);
}

/// The arguments of a line hold the heavy characters that the scanner has
/// kept.
proof fn lemma_finish_heavy(scan: Scan)
    ensures
        scan.finish() matches Ok(tokens) ==> heavy_in_all(tokens) == heavy_kept(scan),
{
    lemma_heavy_in_push(scan.current, '\\');
    lemma_heavy_in_all_push(scan.tokens, scan.current);
    lemma_heavy_in_all_push(scan.tokens, scan.current.push('\\'));
}

/// Requoting adds no heavy character and takes none away.
proof fn lemma_requote_heavy(tokens: Seq<Seq<char>>)
    ensures
        heavy_in(requote_line(tokens)) == heavy_in_all(tokens),
    decreases tokens.len(),
{
    if tokens.len() > 0 {
        let last = tokens.last();
        lemma_heavy_in_concat(seq!['\''], last);
        lemma_heavy_in_concat(seq!['\''] + last, seq!['\'']);
        lemma_step_keeps_no_more(Scan::start(), '\'');
        lemma_step_keeps_no_more(Scan::start(), ' ');
        assert(heavy_in(requote_token(last)) == heavy_in(last));
        if tokens.len() == 1 {
            assert(heavy_in_all(tokens.drop_last()) == 0);
        } else {
            lemma_requote_heavy(tokens.drop_last());
            lemma_heavy_in_concat(requote_line(tokens.drop_last()), seq![' ']);
            lemma_heavy_in_concat(
                requote_line(tokens.drop_last()) + seq![' '],
                requote_token(last),
            );
        }
    }
}

/// A line that splits into the arguments that it was written from keeps
/// every heavy character.
proof fn lemma_round_trip_keeps_heavy(tokens: Seq<Seq<char>>)
    requires
        tokenize(requote_line(tokens)) == Ok::<Seq<Seq<char>>, ParseError>(tokens),
    ensures
        keeps_heavy(Scan::start(), requote_line(tokens)),
{
    lemma_requote_heavy(tokens);
    lemma_finish_heavy(Scan::start().feed(requote_line(tokens)));
}

/// What holds of a scanner that has kept every heavy character so far: it
/// has never been inside double quotes, and it has kept no single quote.
pub open spec fn is_calm(scan: Scan) -> bool {
    &&& scan.quote != QuoteState::Double
    &&& scan.quote == QuoteState::Single ==> !scan.escape
    &&& quote_free(scan.current)
    &&& forall|i: int| 0 <= i < scan.tokens.len() ==> quote_free(#[trigger] scan.tokens[i])
}

/// A calm scanner that keeps every heavy character stays calm.
proof fn lemma_step_stays_calm(from: Scan, c: char)
    requires
        is_calm(from),
        keeps_heavy(from, seq![c]),
    ensures
        is_calm(from.step(c)),
{
    lemma_feed_one(from, c);
    lemma_step_keeps_no_more(from, c);
    lemma_heavy_in_push(from.current, c);
    lemma_heavy_in_all_push(from.tokens, from.current);
}

/// A calm scanner that keeps every heavy character stays calm.
proof fn lemma_feed_stays_calm(from: Scan, text: Seq<char>)
    requires
        is_calm(from),
        keeps_heavy(from, text),
    ensures
        is_calm(from.feed(text)),
    decreases text.len(),
{
    if text.len() > 0 {
        assert(text =~= text.drop_last() + seq![text.last()]);
        lemma_keeps_heavy_split(from, text.drop_last(), seq![text.last()]);
        lemma_feed_stays_calm(from, text.drop_last());
        lemma_step_stays_calm(from.feed(text.drop_last()), text.last());
        lemma_feed_one(from.feed(text.drop_last()), text.last());
    }
}

/// The arguments of a line that keeps every heavy character hold no single
/// quote.
proof fn lemma_round_trip_is_quote_free(tokens: Seq<Seq<char>>)
    requires
        tokenize(requote_line(tokens)) == Ok::<Seq<Seq<char>>, ParseError>(tokens),
    ensures
        forall|i: int| 0 <= i < tokens.len() ==> quote_free(#[trigger] tokens[i]),
{
    lemma_round_trip_keeps_heavy(tokens);
    lemma_feed_stays_calm(Scan::start(), requote_line(tokens));
    let end = Scan::start().feed(requote_line(tokens));
    assert forall|i: int| 0 <= i < tokens.len() implies quote_free(#[trigger] tokens[i]) by {
        if i < end.tokens.len() {
            assert(tokens[i] == end.tokens[i]);
        }
    }
}

/// Writing arguments back and splitting the line again gives the same
/// arguments, provided that each of them survives requoting.
pub proof fn lemma_requote_round_trip(tokens: Seq<Seq<char>>)
    requires
        survives_requoting(tokens),
    ensures
        tokenize(requote_line(tokens)) == Ok::<Seq<Seq<char>>, ParseError>(tokens),
{
    if tokens.len() == 0 {
        assert(tokens =~= Seq::<Seq<char>>::empty());
    } else {
        lemma_feed_requoted_line(tokens);
        let last = tokens.last();
        assert(tokens.drop_last().push(last) =~= tokens);
        if ends_in_bare_backslash(last) {
            assert(last.drop_last().push('\\') =~= last);
        }
    }
}

/// What a requoted line holds behind the argument at `at`.
pub open spec fn line_after(tokens: Seq<Seq<char>>, at: int) -> Seq<char>
    decreases tokens.len(),
{
    if tokens.len() == 0 || tokens.len() <= at + 1 {
        Seq::empty()
    } else {
        line_after(tokens.drop_last(), at) + seq![' '] + requote_token(tokens.last())
    }
}

/// A requoted line is the line up to one of its arguments and what stands
/// behind that argument, which is nothing or starts with the space that
/// separates it from the next.
proof fn lemma_line_split(tokens: Seq<Seq<char>>, at: int)
    requires
        0 <= at < tokens.len(),
    ensures
        requote_line(tokens) == requote_line(tokens.take(at + 1)) + line_after(tokens, at),
        tokens.len() == at + 1 ==> line_after(tokens, at).len() == 0,
        tokens.len() > at + 1 ==> line_after(tokens, at).len() > 0 && line_after(tokens, at)[0]
            == ' ',
    decreases tokens.len(),
{
    if tokens.len() == at + 1 {
        assert(tokens.take(at + 1) =~= tokens);
        assert(requote_line(tokens) + Seq::<char>::empty() =~= requote_line(tokens));
    } else {
        let front = tokens.drop_last();
        lemma_line_split(front, at);
        assert(front.take(at + 1) =~= tokens.take(at + 1));
        assert(requote_line(tokens) =~= requote_line(tokens.take(at + 1)) + line_after(
            tokens,
            at,
        ));
    }
}

/// What keeping every heavy character means for an argument that is
/// written bare: it holds no double quote, and a backslash only at its end
/// and at the end of the line.
proof fn lemma_bare_token_survives(from: Scan, token: Seq<char>, rest: Seq<char>)
    requires
        from.quote == QuoteState::Unquoted,
        !from.escape,
        quote_free(token),
        !has_blank(token),
        keeps_heavy(from, token + rest),
    ensures
        forall|i: int|
            0 <= i < token.len() ==> {
                &&& #[trigger] token[i] != '"'
                &&& token[i] == '\\' ==> i == token.len() - 1 && rest.len() == 0
            },
    decreases token.len(),
{
    if token.len() > 0 {
        let c = token[0];
        let more = token.skip(1);
        let behind = more + rest;
        assert(token + rest =~= seq![c] + behind);
        lemma_keeps_heavy_split(from, seq![c], behind);
        lemma_feed_one(from, c);
        lemma_step_keeps_no_more(from, c);
        assert(!is_blank(token[0]));
        if c == '\\' {
            let waiting = from.step(c);
            if behind.len() > 0 {
                let next = behind[0];
                assert(behind =~= seq![next] + behind.skip(1));
                lemma_keeps_heavy_split(waiting, seq![next], behind.skip(1));
                lemma_feed_one(waiting, next);
                lemma_step_keeps_no_more(waiting, next);
                lemma_heavy_in_push(waiting.current, next);
                assert(false);
            }
        } else if c != '"' {
            assert forall|i: int| 0 <= i < more.len() implies !is_blank(#[trigger] more[i]) by {
                assert(!is_blank(token[i + 1]));
            }
            assert(quote_free(more)) by {
                assert forall|i: int| 0 <= i < more.len() implies #[trigger] more[i] != '\'' by {
                    assert(token[i + 1] != '\'');
                }
            }
            lemma_bare_token_survives(from.step(c), more, rest);
            assert forall|i: int| 0 <= i < token.len() implies {
                &&& #[trigger] token[i] != '"'
                &&& token[i] == '\\' ==> i == token.len() - 1 && rest.len() == 0
            } by {
                if i > 0 {
                    assert(token[i] == more[i - 1]);
                }
            }
        }
    }
}

/// The arguments of a line that splits into the arguments that it was
/// written from survive requoting, one after the other.
proof fn lemma_round_trip_survives_up_to(tokens: Seq<Seq<char>>, upto: nat)
    requires
        tokenize(requote_line(tokens)) == Ok::<Seq<Seq<char>>, ParseError>(tokens),
        upto <= tokens.len(),
    ensures
        forall|i: int|
            0 <= i < upto ==> token_survives_requoting(
                #[trigger] tokens[i],
                i == tokens.len() - 1,
            ),
    decreases upto,
{
    if upto > 0 {
        let at = upto - 1;
        let token = tokens[at];
        lemma_round_trip_survives_up_to(tokens, at as nat);
        lemma_tokens_not_empty(requote_line(tokens));
        lemma_round_trip_is_quote_free(tokens);
        assert(token.len() > 0 && quote_free(token));
        if !has_blank(token) {
            let front = tokens.take(at);
            let rest = line_after(tokens, at);
            let before = if at == 0 {
                Seq::<char>::empty()
            } else {
                requote_line(front) + seq![' ']
            };
            let clean = Scan::start().feed(before);
            lemma_round_trip_keeps_heavy(tokens);
            lemma_line_split(tokens, at);
            assert(tokens.take(at + 1).drop_last() =~= front);
            assert(requote_line(tokens) =~= before + (token + rest));
            lemma_keeps_heavy_split(Scan::start(), before, token + rest);
            if at > 0 {
                assert forall|k: int| 0 <= k < front.len() implies token_survives_requoting(
                    #[trigger] front[k],
                    k == front.len() - 1,
                ) by {
                    assert(token_survives_requoting(tokens[k], false));
                }
                lemma_feed_requoted_line(front);
                assert(token_survives_requoting(tokens[at - 1], false));
                lemma_feed_concat(Scan::start(), requote_line(front), seq![' ']);
                lemma_feed_one(Scan::start().feed(requote_line(front)), ' ');
            }
            lemma_bare_token_survives(clean, token, rest);
        }
    }
}

/// Writing arguments back and splitting the line again gives the same
/// arguments exactly when each of them survives requoting.
pub proof fn lemma_requote_round_trip_exactly(tokens: Seq<Seq<char>>)
    ensures
        tokenize(requote_line(tokens)) == Ok::<Seq<Seq<char>>, ParseError>(tokens)
            <==> survives_requoting(tokens),
{
    if survives_requoting(tokens) {
        lemma_requote_round_trip(tokens);
    }
    if tokenize(requote_line(tokens)) == Ok::<Seq<Seq<char>>, ParseError>(tokens) {
        lemma_round_trip_survives_up_to(tokens, tokens.len());
    }
}

/// Splitting a line, writing its arguments back and splitting again changes
/// nothing, if the arguments survive requoting: the second splitting gives
/// what the first gave.  Of a line with balanced quotes this holds then, and
/// only then.
pub proof fn lemma_tokenize_requote_tokenize(line: Seq<char>)
    requires
        tokenize(line) is Ok,
    ensures
        tokenize(requote_line(tokenize(line)->Ok_0)) == tokenize(line) <==> survives_requoting(
            tokenize(line)->Ok_0,
        ),
{
    lemma_requote_round_trip_exactly(tokenize(line)->Ok_0);
}

} // verus!
