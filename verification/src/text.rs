//! Working with text: joining and cutting strings, and the two operations
//! of the standard library on `str` and `String` that are taken on trust
//! here, each with the meaning that its documentation gives.

use vstd::prelude::*;
use vstd::string::StringExecFns;

verus! {

/// `String::push` appends one character to the end of the string and changes
/// nothing else in it.
pub assume_specification[ String::push ](s: &mut String, ch: char)
    ensures
        final(s)@ == old(s)@.push(ch),
;

/// `str::eq` compares two string slices character by character: it holds
/// exactly when both hold the same text.
pub assume_specification[ <str as PartialEq>::eq ](a: &str, b: &str) -> (same: bool)
    ensures
        same == (a@ == b@),
;

/// The words one after the other, with `separator` between two of them.
pub open spec fn joined(words: Seq<Seq<char>>, separator: Seq<char>) -> Seq<char>
    decreases words.len(),
{
    if words.len() == 0 {
        Seq::empty()
    } else if words.len() == 1 {
        words[0]
    } else {
        joined(words.drop_last(), separator) + separator + words.last()
    }
}

/// Joins the words with `separator` between two of them.
pub fn join(words: &[String], separator: &str) -> (text: String)
    ensures
        text@ == joined(words.deep_view(), separator@),
{
    let mut text = String::new();
    let mut i: usize = 0;
    while i < words.len()
        invariant
            i <= words.len(),
            text@ == joined(words.deep_view().take(i as int), separator@),
        decreases words.len() - i,
    {
        assert(words.deep_view().take(i + 1).drop_last() =~= words.deep_view().take(i as int));
        if i > 0 {
            text.append(separator);
        }
        text.append(words[i].as_str());
        i += 1;
    }
    assert(words.deep_view().take(words.len() as int) =~= words.deep_view());
    text
}

/// Whether a string holds a character.
pub fn contains_char(text: &str, wanted: char) -> (found: bool)
    ensures
        found == text@.contains(wanted),
{
    let mut found = false;
    for c in chars: text.chars()
        invariant
            chars.seq() == text@,
            found == text@.take(chars.index() as int).contains(wanted),
    {
        proof {
            let before = text@.take(chars.index() as int);
            let after = text@.take(chars.index() + 1);
            if before.contains(wanted) {
                let i = choose|i: int| 0 <= i < before.len() && before[i] == wanted;
                assert(after[i] == wanted);
            }
            if c == wanted {
                assert(after[chars.index() as int] == wanted);
            }
        }
        if c == wanted {
            found = true;
        }
    }
    assert(text@.take(text@.len() as int) =~= text@);
    found
}

/// The pieces into which `separator` cuts a text.  There is one piece more
/// than the text holds separators, so a text without any is its own single
/// piece, and two separators in a row have an empty piece between them.
pub open spec fn pieces(text: Seq<char>, separator: char) -> Seq<Seq<char>>
    decreases text.len(),
{
    if text.len() == 0 {
        seq![Seq::empty()]
    } else {
        let before = pieces(text.drop_last(), separator);
        if text.last() == separator {
            before.push(Seq::empty())
        } else {
            before.drop_last().push(before.last().push(text.last()))
        }
    }
}

/// A text has at least one piece.
pub proof fn lemma_pieces_not_empty(text: Seq<char>, separator: char)
    ensures
        pieces(text, separator).len() > 0,
    decreases text.len(),
{
    if text.len() > 0 {
        lemma_pieces_not_empty(text.drop_last(), separator);
    }
}

/// No piece holds the separator, and the pieces joined by the separator
/// are the text again: the pieces are the one way to cut the text at each
/// separator.
pub proof fn lemma_pieces_rejoin(text: Seq<char>, separator: char)
    ensures
        joined(pieces(text, separator), seq![separator]) == text,
        forall|i: int|
            0 <= i < pieces(text, separator).len() ==> !(#[trigger] pieces(
                text,
                separator,
            )[i]).contains(separator),
    decreases text.len(),
{
    let all = pieces(text, separator);
    if text.len() > 0 {
        let front = text.drop_last();
        let before = pieces(front, separator);
        lemma_pieces_rejoin(front, separator);
        lemma_pieces_not_empty(front, separator);
        if text.last() == separator {
            assert(all.drop_last() =~= before);
            assert forall|i: int| 0 <= i < all.len() implies !(#[trigger] all[i]).contains(
                separator,
            ) by {
                assert(i < before.len() ==> all[i] == before[i]);
            }
        } else {
            let grown = before.last().push(text.last());
            assert(all.drop_last() =~= before.drop_last());
            assert(text =~= front.push(text.last()));
            assert forall|i: int| 0 <= i < all.len() implies !(#[trigger] all[i]).contains(
                separator,
            ) by {
                if i < before.len() - 1 {
                    assert(all[i] == before[i]);
                } else if grown.contains(separator) {
                    let k = choose|k: int| 0 <= k < grown.len() && grown[k] == separator;
                    assert(before.last()[k] == separator);
                }
            }
        }
    }
}

/// Cuts a text at each `separator`.
pub fn split(text: &str, separator: char) -> (parts: Vec<String>)
    ensures
        parts.deep_view() == pieces(text@, separator),
{
    let mut parts: Vec<String> = Vec::new();
    let mut current = String::new();
    for c in chars: text.chars()
        invariant
            chars.seq() == text@,
            parts.deep_view().push(current@) == pieces(
                text@.take(chars.index() as int),
                separator,
            ),
    {
        assert(text@.take(chars.index() + 1).drop_last() =~= text@.take(chars.index() as int));
        if c == separator {
            let mut done = String::new();
            std::mem::swap(&mut current, &mut done);
            parts.push(done);
        } else {
            current.push(c);
        }
    }
    assert(text@.take(text@.len() as int) =~= text@);
    parts.push(current);
    parts
}

/// Copies strings.
pub fn copy_strings(texts: &[String]) -> (copy: Vec<String>)
    ensures
        copy.deep_view() == texts.deep_view(),
{
    let mut copy: Vec<String> = Vec::new();
    let mut i: usize = 0;
    while i < texts.len()
        invariant
            i <= texts.len(),
            copy.len() == i,
            forall|j: int| 0 <= j < i ==> copy[j]@ == texts[j]@,
        decreases texts.len() - i,
    {
        copy.push(texts[i].clone());
        i += 1;
    }
    copy
}

/// The text that an optional string holds.
pub open spec fn optional_text(text: Option<&str>) -> Option<Seq<char>> {
    match text {
        Some(text) => Some(text@),
        None => None,
    }
}

} // verus!
