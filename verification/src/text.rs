//! Texts as sequences of characters: what it means for one text to occur in
//! another, to begin with another or to be split at another, and what is
//! taken on trust about the string functions of the standard library that
//! compute these.

use vstd::prelude::*;

verus! {

/// `needle` occurs in `haystack` as a contiguous run of characters.
pub open spec fn occurs_in(needle: Seq<char>, haystack: Seq<char>) -> bool {
    exists|i: int|
        0 <= i && i + needle.len() <= haystack.len() && #[trigger] haystack.subrange(
            i,
            i + needle.len(),
        ) == needle
}

/// The text begins with `prefix`.
pub open spec fn has_prefix(text: Seq<char>, prefix: Seq<char>) -> bool {
    prefix.len() <= text.len() && text.subrange(0, prefix.len() as int) == prefix
}

/// The text with every leading repetition of `prefix` taken off.
pub open spec fn without_prefixes(text: Seq<char>, prefix: Seq<char>) -> Seq<char>
    decreases text.len(),
{
    if prefix.len() > 0 && has_prefix(text, prefix) {
        without_prefixes(text.skip(prefix.len() as int), prefix)
    } else {
        text
    }
}

/// The pieces of `text` between the occurrences of `separator`, found from
/// the left and not overlapping, behind the piece `current` that is under way.
pub open spec fn pieces_after(
    text: Seq<char>,
    separator: Seq<char>,
    current: Seq<char>,
) -> Seq<Seq<char>>
    decreases text.len(),
{
    if text.len() == 0 {
        seq![current]
    } else if separator.len() > 0 && has_prefix(text, separator) {
        seq![current] + pieces_after(text.skip(separator.len() as int), separator, Seq::empty())
    } else {
        pieces_after(text.skip(1), separator, current.push(text[0]))
    }
}

/// The pieces of `text` between the occurrences of `separator`.
pub open spec fn pieces(text: Seq<char>, separator: Seq<char>) -> Seq<Seq<char>> {
    pieces_after(text, separator, Seq::empty())
}

/// The texts of a list of strings, in order.
pub open spec fn texts(strings: Seq<String>) -> Seq<Seq<char>> {
    strings.map_values(|s: String| s@)
}

/// `str::split` with a string as the separator: the pieces of `text` between
/// the occurrences of `separator`, empty pieces included.
#[verifier::external_body]
pub(crate) fn split_text(text: &str, separator: &str) -> (parts: Vec<String>)
    requires
        separator@.len() > 0,
    ensures
        texts(parts@) == pieces(text@, separator@),
{
    text.split(separator).map(|part| part.to_string()).collect()
}

/// `str::starts_with` with a string as the pattern.
#[verifier::external_body]
pub(crate) fn starts_with_text(text: &str, prefix: &str) -> (found: bool)
    ensures
        found == has_prefix(text@, prefix@),
{
    text.starts_with(prefix)
}

/// `str::trim_start_matches` with a string as the pattern: what is left of
/// `text` when every leading repetition of `prefix` is taken off.
#[verifier::external_body]
pub(crate) fn trim_prefixes<'a>(text: &'a str, prefix: &str) -> (rest: &'a str)
    requires
        prefix@.len() > 0,
    ensures
        rest@ == without_prefixes(text@, prefix@),
{
    text.trim_start_matches(prefix)
}

/// A line without the carriage return that may end it.
pub open spec fn without_carriage_return(line: Seq<char>) -> Seq<char> {
    if line.len() > 0 && line.last() == '\r' {
        line.drop_last()
    } else {
        line
    }
}

/// The lines of `text` behind the line `current` that is under way. A line
/// ends at a line feed, or at a carriage return and a line feed; what follows
/// the last line feed is a line unless it is empty.
pub open spec fn lines_after(text: Seq<char>, current: Seq<char>) -> Seq<Seq<char>>
    decreases text.len(),
{
    if text.len() == 0 {
        if current.len() == 0 {
            Seq::empty()
        } else {
            seq![current]
        }
    } else if text[0] == '\n' {
        seq![without_carriage_return(current)] + lines_after(text.skip(1), Seq::empty())
    } else {
        lines_after(text.skip(1), current.push(text[0]))
    }
}

/// The lines of `text`, without their line endings.
pub open spec fn lines(text: Seq<char>) -> Seq<Seq<char>> {
    lines_after(text, Seq::empty())
}

/// The text without the white space at its two ends.
pub uninterp spec fn trimmed(text: Seq<char>) -> Seq<char>;

/// `str::lines`: the lines of the text, without their line endings.
#[verifier::external_body]
pub(crate) fn lines_of(text: &str) -> (found: Vec<String>)
    ensures
        texts(found@) == lines(text@),
{
    text.lines().map(|line| line.to_string()).collect()
}

/// `str::trim`: the text without the white space at its two ends.
#[verifier::external_body]
pub(crate) fn trim_text<'a>(text: &'a str) -> (rest: &'a str)
    ensures
        rest@ == trimmed(text@),
{
    text.trim()
}

/// The decimal digit for `d`.
pub open spec fn digit(d: nat) -> char
    recommends
        d < 10,
{
    if d == 0 {
        '0'
    } else if d == 1 {
        '1'
    } else if d == 2 {
        '2'
    } else if d == 3 {
        '3'
    } else if d == 4 {
        '4'
    } else if d == 5 {
        '5'
    } else if d == 6 {
        '6'
    } else if d == 7 {
        '7'
    } else if d == 8 {
        '8'
    } else {
        '9'
    }
}

/// The decimal numeral of `n`, without leading zeros.
pub open spec fn decimal(n: nat) -> Seq<char>
    decreases n,
{
    if n < 10 {
        seq![digit(n)]
    } else {
        decimal(n / 10).push(digit(n % 10))
    }
}

/// `usize::to_string`: the decimal numeral of the number.
#[verifier::external_body]
pub(crate) fn decimal_text(n: usize) -> (text: String)
    ensures
        text@ == decimal(n as nat),
{
    n.to_string()
}

/// `str::contains` with a string as the pattern: true exactly when `needle`
/// occurs somewhere in `haystack`.
#[verifier::external_body]
pub(crate) fn contains_str(haystack: &str, needle: &str) -> (found: bool)
    ensures
        found == occurs_in(needle@, haystack@),
{
    haystack.contains(needle)
}

/// `str::split_once` with a string as the delimiter: what stands before and
/// behind the first occurrence of `delimiter`, or `None` where it does not
/// occur.
#[verifier::external_body]
pub(crate) fn split_at_first<'a>(text: &'a str, delimiter: &str) -> (parts: Option<
    (&'a str, &'a str),
>)
    ensures
        match parts {
            Some((before, after)) => {
                &&& text@ == before@ + delimiter@ + after@
                &&& forall|i: int|
                    0 <= i < before@.len() ==> #[trigger] text@.subrange(i, i + delimiter@.len())
                        != delimiter@
            },
            None => !occurs_in(delimiter@, text@),
        },
{
    text.split_once(delimiter)
}

/// What stands before and behind the first occurrence of `delimiter` in
/// `text`, or `None` where it does not occur.
pub open spec fn cut_at_first(text: Seq<char>, delimiter: Seq<char>) -> Option<
    (Seq<char>, Seq<char>),
>
    decreases text.len(),
{
    if has_prefix(text, delimiter) {
        Some((Seq::empty(), text.skip(delimiter.len() as int)))
    } else if text.len() == 0 {
        None
    } else {
        match cut_at_first(text.skip(1), delimiter) {
            Some((before, after)) => Some((seq![text[0]] + before, after)),
            None => None,
        }
    }
}

proof fn lemma_first_cut(
    text: Seq<char>,
    delimiter: Seq<char>,
    before: Seq<char>,
    after: Seq<char>,
)
    requires
        text == before + delimiter + after,
        forall|i: int|
            0 <= i < before.len() ==> #[trigger] text.subrange(i, i + delimiter.len()) != delimiter,
    ensures
        cut_at_first(text, delimiter) == Some((before, after)),
    decreases before.len(),
{
    if before.len() == 0 {
        assert(text.subrange(0, delimiter.len() as int) =~= delimiter);
        assert(text.skip(delimiter.len() as int) =~= after);
        assert(before =~= Seq::empty());
    } else {
        assert(text.subrange(0, 0int + delimiter.len()) != delimiter);
        let rest = text.skip(1);
        let shorter = before.skip(1);
        assert(rest =~= shorter + delimiter + after);
        assert forall|i: int| 0 <= i < shorter.len() implies #[trigger] rest.subrange(
            i,
            i + delimiter.len(),
        ) != delimiter by {
            assert(rest.subrange(i, i + delimiter.len()) =~= text.subrange(
                i + 1,
                i + 1 + delimiter.len(),
            ));
        }
        lemma_first_cut(rest, delimiter, shorter, after);
        assert(seq![text[0]] + shorter =~= before);
    }
}

proof fn lemma_no_cut(text: Seq<char>, delimiter: Seq<char>)
    requires
        !occurs_in(delimiter, text),
    ensures
        cut_at_first(text, delimiter) is None,
    decreases text.len(),
{
    if has_prefix(text, delimiter) {
        assert(text.subrange(0, 0int + delimiter.len()) == delimiter);
    } else if text.len() > 0 {
        let rest = text.skip(1);
        if occurs_in(delimiter, rest) {
            let i = choose|i: int|
                0 <= i && i + delimiter.len() <= rest.len() && #[trigger] rest.subrange(
                    i,
                    i + delimiter.len(),
                ) == delimiter;
            assert(text.subrange(i + 1, i + 1 + delimiter.len()) =~= rest.subrange(
                i,
                i + delimiter.len(),
            ));
        }
        lemma_no_cut(rest, delimiter);
    }
}

/// Cuts the text at the first occurrence of `delimiter`: hands out what
/// stands before it and what stands behind it.
pub fn cut_text<'a>(text: &'a str, delimiter: &str) -> (parts: Option<(&'a str, &'a str)>)
    ensures
        match parts {
            Some((before, after)) => {
                &&& cut_at_first(text@, delimiter@) == Some((before@, after@))
                &&& text@ == before@ + delimiter@ + after@
                &&& forall|i: int|
                    0 <= i < before@.len() ==> #[trigger] text@.subrange(i, i + delimiter@.len())
                        != delimiter@
            },
            None => cut_at_first(text@, delimiter@) is None && !occurs_in(delimiter@, text@),
        },
{
    let parts = split_at_first(text, delimiter);
    proof {
        match parts {
            Some((before, after)) => lemma_first_cut(text@, delimiter@, before@, after@),
            None => lemma_no_cut(text@, delimiter@),
        }
    }
    parts
}

/// `str::eq`: whether two texts are the same.
#[verifier::external_body]
pub(crate) fn same_text(left: &str, right: &str) -> (same: bool)
    ensures
        same == (left@ == right@),
{
    left == right
}

/// A text occurs in every text that is built around it.
pub proof fn lemma_occurs_in_the_middle(before: Seq<char>, text: Seq<char>, after: Seq<char>)
    ensures
        occurs_in(text, before + text + after),
{
    let whole = before + text + after;
    let at = before.len() as int;
    assert(whole.subrange(at, at + text.len()) =~= text);
}

/// What occurs in a part occurs in the whole.
pub proof fn lemma_occurs_in_chain(inner: Seq<char>, middle: Seq<char>, outer: Seq<char>)
    requires
        occurs_in(inner, middle),
        occurs_in(middle, outer),
    ensures
        occurs_in(inner, outer),
{
    let i = choose|i: int|
        0 <= i && i + inner.len() <= middle.len() && #[trigger] middle.subrange(i, i + inner.len())
            == inner;
    let j = choose|j: int|
        0 <= j && j + middle.len() <= outer.len() && #[trigger] outer.subrange(j, j + middle.len())
            == middle;
    assert(outer.subrange(j + i, j + i + inner.len()) =~= outer.subrange(
        j,
        j + middle.len(),
    ).subrange(i, i + inner.len()));
}

} // verus!
