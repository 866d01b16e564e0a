//! The filter that keeps in-band tool markup away from viewers.
//!
//! The model's answer arrives as a sequence of fragments. A fragment that
//! holds the opening tag starts a suppressed stretch, a fragment that holds the
//! closing tag ends it, and both of those fragments are themselves suppressed.
//! Detection is per fragment: a tag that is split over two fragments is not
//! seen, and such fragments stay visible.

use vstd::prelude::*;
use vstd::string::StringExecFns;
use crate::text::{contains_str, cut_at_first, cut_text, lemma_occurs_in_the_middle, occurs_in};

verus! {

/// The tag that opens a tool request.
pub open spec fn open_tag() -> Seq<char> {
    "<tool_request>"@
}

/// The tag that closes a tool request.
pub open spec fn close_tag() -> Seq<char> {
    "</tool_request>"@
}

/// The fragment holds the opening tag.
pub open spec fn opens(fragment: Seq<char>) -> bool {
    occurs_in(open_tag(), fragment)
}

/// The fragment holds the closing tag.
pub open spec fn closes(fragment: Seq<char>) -> bool {
    occurs_in(close_tag(), fragment)
}

/// The text holds a tag pair: an opening tag and, somewhere behind it, a
/// closing tag.
pub open spec fn has_tag_pair(text: Seq<char>) -> bool {
    exists|i: int, j: int|
        0 <= i && i + open_tag().len() <= j && j + close_tag().len() <= text.len()
            && #[trigger] text.subrange(i, i + open_tag().len()) == open_tag()
            && #[trigger] text.subrange(j, j + close_tag().len()) == close_tag()
}

/// What the filter remembers between two fragments.
pub struct FilterState {
    /// Whether a suppressed stretch is open.
    pub suppressing: bool,
    /// Everything consumed so far, markup included.
    pub raw: Seq<char>,
}

/// The state of a filter that has consumed nothing.
pub open spec fn initial_state() -> FilterState {
    FilterState { suppressing: false, raw: Seq::empty() }
}

/// Whether `fragment` reaches the viewers when it arrives in state `state`.
pub open spec fn shows(state: FilterState, fragment: Seq<char>) -> bool {
    !state.suppressing && !opens(fragment)
}

/// The state after `fragment` has been consumed in state `state`.
pub open spec fn step(state: FilterState, fragment: Seq<char>) -> FilterState {
    FilterState {
        suppressing: (state.suppressing || opens(fragment)) && !closes(fragment),
        raw: state.raw + fragment,
    }
}

/// The state after all of `fragments` have been consumed, in order.
pub open spec fn state_after(fragments: Seq<Seq<char>>) -> FilterState
    decreases fragments.len(),
{
    if fragments.len() == 0 {
        initial_state()
    } else {
        step(state_after(fragments.drop_last()), fragments.last())
    }
}

/// Whether fragment `i` of `fragments` reaches the viewers.
pub open spec fn visible_at(fragments: Seq<Seq<char>>, i: int) -> bool
    recommends
        0 <= i < fragments.len(),
{
    shows(state_after(fragments.take(i)), fragments[i])
}

/// The concatenation of all fragments: the raw text of the answer.
pub open spec fn raw_text(fragments: Seq<Seq<char>>) -> Seq<char>
    decreases fragments.len(),
{
    if fragments.len() == 0 {
        Seq::empty()
    } else {
        raw_text(fragments.drop_last()) + fragments.last()
    }
}

/// What the first tag pair of the text encloses: what stands between the
/// first opening tag and the first closing tag behind it. `None` where the
/// text holds no tag pair.
pub open spec fn enclosed(text: Seq<char>) -> Option<Seq<char>> {
    match cut_at_first(text, open_tag()) {
        None => None,
        Some((_, behind)) => match cut_at_first(behind, close_tag()) {
            None => None,
            Some((inside, _)) => Some(inside),
        },
    }
}

/// Hands out what the first tag pair of the text encloses.
pub fn enclosed_text<'a>(text: &'a str) -> (inside: Option<&'a str>)
    ensures
        match inside {
            Some(found) => enclosed(text@) == Some(found@),
            None => enclosed(text@) is None,
        },
        inside is Some <==> has_tag_pair(text@),
{
    proof {
        reveal_strlit("<tool_request>");
        reveal_strlit("</tool_request>");
    }
    match cut_text(text, "<tool_request>") {
        None => {
            assert(!has_tag_pair(text@)) by {
                if has_tag_pair(text@) {
                    let (i, j) = choose|i: int, j: int|
                        0 <= i && i + open_tag().len() <= j && j + close_tag().len() <= text@.len()
                            && #[trigger] text@.subrange(i, i + open_tag().len()) == open_tag()
                            && #[trigger] text@.subrange(j, j + close_tag().len()) == close_tag();
                    assert(text@.subrange(i, i + open_tag().len()) == open_tag());
                }
            }
            None
        },
        Some((before, after)) => {
            let cut = cut_text(after, "</tool_request>");
            proof {
                let start = before@.len() as int;
                let behind = start + open_tag().len();
                assert(text@.subrange(start, behind) =~= open_tag());
                assert(text@.subrange(behind, text@.len() as int) =~= after@);
                if let Some((inside, rest)) = cut {
                    lemma_occurs_in_the_middle(inside@, close_tag(), rest@);
                    let k = choose|k: int|
                        0 <= k && k + close_tag().len() <= after@.len() && #[trigger] after@.subrange(
                            k,
                            k + close_tag().len(),
                        ) == close_tag();
                    assert(text@.subrange(behind + k, behind + k + close_tag().len())
                        =~= after@.subrange(k, k + close_tag().len()));
                }
                if has_tag_pair(text@) {
                    let (i, j) = choose|i: int, j: int|
                        0 <= i && i + open_tag().len() <= j && j + close_tag().len() <= text@.len()
                            && #[trigger] text@.subrange(i, i + open_tag().len()) == open_tag()
                            && #[trigger] text@.subrange(j, j + close_tag().len()) == close_tag();
                    assert(i >= start) by {
                        if i < start {
                            assert(text@.subrange(i, i + open_tag().len()) != open_tag());
                        }
                    }
                    assert(after@.subrange(j - behind, j - behind + close_tag().len())
                        =~= text@.subrange(j, j + close_tag().len()));
                    assert(occurs_in(close_tag(), after@));
                }
            }
            match cut {
                Some((inside, _)) => Some(inside),
                None => None,
            }
        },
    }
}

/// Tells whether the text holds a tag pair.
pub fn holds_tag_pair(text: &str) -> (found: bool)
    ensures
        found == has_tag_pair(text@),
{
    enclosed_text(text).is_some()
}

/// The filter between two fragments.
#[derive(Debug)]
pub struct MarkupFilter {
    suppressing: bool,
    raw: String,
}

impl View for MarkupFilter {
    type V = FilterState;

    closed spec fn view(&self) -> FilterState {
        FilterState { suppressing: self.suppressing, raw: self.raw@ }
    }
}

impl MarkupFilter {
    /// A filter that has consumed nothing.
    pub fn new() -> (filter: MarkupFilter)
        ensures
            filter@ == initial_state(),
    {
        MarkupFilter { suppressing: false, raw: String::new() }
    }

    /// Consumes the next fragment and tells whether it reaches the viewers.
    /// The fragment is added to the raw text either way.
    pub fn feed(&mut self, fragment: &str) -> (visible: bool)
        ensures
            visible == shows(old(self)@, fragment@),
            final(self)@ == step(old(self)@, fragment@),
    {
        let opened = self.suppressing || contains_str(fragment, "<tool_request>");
        let closed = contains_str(fragment, "</tool_request>");
        self.raw.append(fragment);
        self.suppressing = opened && !closed;
        !opened
    }

    /// Whether the filter is inside a suppressed stretch.
    pub fn is_suppressing(&self) -> (s: bool)
        ensures
            s == self@.suppressing,
    {
        self.suppressing
    }

    /// The raw text consumed so far, markup included.
    pub fn raw(&self) -> (text: &str)
        ensures
            text@ == self@.raw,
    {
        self.raw.as_str()
    }

    /// Hands out the raw text and makes the filter ready for the next stream.
    pub fn take(&mut self) -> (text: String)
        ensures
            text@ == old(self)@.raw,
            final(self)@ == initial_state(),
    {
        let mut text = String::new();
        std::mem::swap(&mut text, &mut self.raw);
        self.suppressing = false;
        text
    }
}

/// A stretch of fragments that holds one complete tool request: fragment
/// `first` holds the opening tag, fragment `last` holds the closing tag, and no
/// tag occurs anywhere else.
pub open spec fn single_request(fragments: Seq<Seq<char>>, first: int, last: int) -> bool {
    &&& 0 <= first <= last < fragments.len()
    &&& forall|i: int|
        0 <= i < fragments.len() ==> (#[trigger] opens(fragments[i]) <==> i == first)
    &&& forall|i: int|
        0 <= i < fragments.len() ==> (#[trigger] closes(fragments[i]) <==> i == last)
}

proof fn lemma_suppressing_within_request(
    fragments: Seq<Seq<char>>,
    first: int,
    last: int,
    n: int,
)
    requires
        single_request(fragments, first, last),
        0 <= n <= fragments.len(),
    ensures
        state_after(fragments.take(n)).suppressing == (first < n <= last),
    decreases n,
{
    if n > 0 {
        lemma_suppressing_within_request(fragments, first, last, n - 1);
        assert(fragments.take(n).drop_last() =~= fragments.take(n - 1));
        assert(fragments.take(n).last() == fragments[n - 1]);
        assert(opens(fragments[n - 1]) <==> n - 1 == first);
        assert(closes(fragments[n - 1]) <==> n - 1 == last);
    }
}

/// When the fragments hold one complete tool request, with each tag inside a
/// single fragment, the suppressed fragments are exactly those from the one
/// with the opening tag to the one with the closing tag, both included.
pub proof fn lemma_suppresses_exactly_the_request(
    fragments: Seq<Seq<char>>,
    first: int,
    last: int,
)
    requires
        single_request(fragments, first, last),
    ensures
        forall|i: int|
            0 <= i < fragments.len() ==> (#[trigger] visible_at(fragments, i) <==> !(first <= i
                <= last)),
{
    assert forall|i: int| 0 <= i < fragments.len() implies (#[trigger] visible_at(fragments, i)
        <==> !(first <= i <= last)) by {
        lemma_suppressing_within_request(fragments, first, last, i);
        assert(opens(fragments[i]) <==> i == first);
    }
}

/// The raw text is the concatenation of every fragment, visible or not.
pub proof fn lemma_raw_is_concatenation(fragments: Seq<Seq<char>>)
    ensures
        state_after(fragments).raw == raw_text(fragments),
    decreases fragments.len(),
{
    if fragments.len() > 0 {
        lemma_raw_is_concatenation(fragments.drop_last());
    }
}

} // verus!
