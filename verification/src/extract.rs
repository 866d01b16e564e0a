//! The extractor that turns the raw text of one model answer into the tool
//! invocations that it requests.
//!
//! A request is a JSON array between an opening and a closing tag. Only the
//! first tag pair of a text counts: what it encloses is the request or is
//! none, and later pairs are not read. Each element of the array that has a string
//! `name` and an object `arguments` is one invocation; the other elements are
//! passed over.

use vstd::prelude::*;
use crate::json::{is_object_text, json_array_items, json_member, json_string, json_text, member, parse_array};
use crate::markup::{enclosed, enclosed_text, has_tag_pair};

verus! {

/// The pattern for what a tag pair encloses: a bracketed text, with white
/// space before and behind it at most. The bracketed text may span lines.
pub const REQUEST_PATTERN: &'static str = r"(?s)\A\s*(\[.*\])\s*\z";

/// The text of the first capture group of the leftmost match of `pattern` in
/// `haystack`; `None` where `pattern` is no valid pattern, where it matches
/// nowhere, or where the group took no part in the match.
pub uninterp spec fn regex_first_group(pattern: Seq<char>, haystack: Seq<char>) -> Option<
    Seq<char>,
>;

/// `Regex::new`, `Regex::captures` and `Captures::get`: compiles `pattern`,
/// searches `haystack` for its leftmost match and hands out the text of the
/// first capture group.
#[verifier::external_body]
fn first_group(pattern: &str, haystack: &str) -> (group: Option<String>)
    ensures
        match group {
            Some(text) => regex_first_group(pattern@, haystack@) == Some(text@),
            None => regex_first_group(pattern@, haystack@) is None,
        },
{
    let compiled = regex::Regex::new(pattern).ok()?;
    let captures = compiled.captures(haystack)?;
    Some(captures.get(1)?.as_str().to_string())
}

/// One tool invocation as the model wrote it.
#[derive(Clone, Debug, PartialEq)]
pub struct CustomToolRequest {
    pub name: String,
    pub arguments: serde_json::Value,
}

/// The content of an invocation: its name, and its arguments as compact JSON.
pub struct RequestView {
    pub name: Seq<char>,
    pub arguments: Seq<char>,
}

impl View for CustomToolRequest {
    type V = RequestView;

    open spec fn view(&self) -> RequestView {
        RequestView { name: self.name@, arguments: json_text(self.arguments) }
    }
}

/// The contents of a list of invocations, in order.
pub open spec fn request_views(requests: Seq<CustomToolRequest>) -> Seq<RequestView> {
    requests.map_values(|r: CustomToolRequest| r@)
}

/// What one element of the array offers: its `name` where that is a string,
/// and its `arguments` where that is an object.
#[derive(Clone, Debug, PartialEq)]
pub struct EntryFields {
    pub name: Option<String>,
    pub arguments: Option<serde_json::Value>,
}

/// The content of an [`EntryFields`].
pub struct EntryFieldsView {
    pub name: Option<Seq<char>>,
    pub arguments: Option<Seq<char>>,
}

impl View for EntryFields {
    type V = EntryFieldsView;

    open spec fn view(&self) -> EntryFieldsView {
        EntryFieldsView {
            name: match self.name {
                Some(n) => Some(n@),
                None => None,
            },
            arguments: match self.arguments {
                Some(a) => Some(json_text(a)),
                None => None,
            },
        }
    }
}

/// The fields that the array element with compact text `entry` offers.
pub open spec fn entry_fields(entry: Seq<char>) -> EntryFieldsView {
    EntryFieldsView {
        name: match json_member(entry, "name"@) {
            Some(n) => json_string(n),
            None => None,
        },
        arguments: match json_member(entry, "arguments"@) {
            Some(a) => if is_object_text(a) {
                Some(a)
            } else {
                None
            },
            None => None,
        },
    }
}

/// The invocations among `entries`: those with both fields, in order.
pub open spec fn selected(entries: Seq<EntryFieldsView>) -> Seq<RequestView>
    decreases entries.len(),
{
    if entries.len() == 0 {
        Seq::empty()
    } else {
        let earlier = selected(entries.drop_last());
        match (entries.last().name, entries.last().arguments) {
            (Some(name), Some(arguments)) => earlier.push(RequestView { name, arguments }),
            _ => earlier,
        }
    }
}

/// What the extractor yields for the raw text `text`.
pub open spec fn extraction(text: Seq<char>) -> Option<Seq<RequestView>> {
    match enclosed(text) {
        None => None,
        Some(inside) => match regex_first_group(REQUEST_PATTERN@, inside) {
            None => None,
            Some(body) => match json_array_items(body) {
                None => None,
                Some(items) => Some(selected(items.map_values(|e: Seq<char>| entry_fields(e)))),
            },
        },
    }
}

/// Reads from one array element the two fields that make an invocation.
pub fn read_entry(entry: &serde_json::Value) -> (fields: EntryFields)
    ensures
        fields@ == entry_fields(json_text(*entry)),
{
    let name = match member(entry, "name") {
        Some(n) => match n.as_str() {
            Some(s) => Some(s.to_string()),
            None => None,
        },
        None => None,
    };
    let arguments = match member(entry, "arguments") {
        Some(a) => if a.is_object() {
            Some(a.clone())
        } else {
            None
        },
        None => None,
    };
    EntryFields { name, arguments }
}

/// Keeps the entries that have both a name and arguments, in their order.
pub fn select_requests(entries: Vec<EntryFields>) -> (requests: Vec<CustomToolRequest>)
    ensures
        request_views(requests@) == selected(entries@.map_values(|e: EntryFields| e@)),
{
    let ghost all = entries@.map_values(|e: EntryFields| e@);
    let mut requests: Vec<CustomToolRequest> = Vec::new();
    assert(all.take(0) =~= Seq::empty());
    for entry in it: entries
        invariant
            all == it.seq().map_values(|e: EntryFields| e@),
            request_views(requests@) == selected(all.take(it.index() as int)),
    {
        proof {
            assert(all.take(it.index() + 1).drop_last() =~= all.take(it.index() as int));
            assert(all.take(it.index() + 1).last() == entry@);
        }
        let ghost before = requests@;
        match (entry.name, entry.arguments) {
            (Some(name), Some(arguments)) => {
                let request = CustomToolRequest { name, arguments };
                requests.push(request);
                assert(request_views(requests@) =~= request_views(before).push(request@));
            },
            _ => {},
        }
    }
    assert(all.take(all.len() as int) =~= all);
    requests
}

/// Extracts the tool invocations that the raw text of an answer requests.
/// `None` means that the text holds no readable request and is the final answer.
pub fn parse_tool_requests(text: &str) -> (requests: Option<Vec<CustomToolRequest>>)
    ensures
        match requests {
            Some(found) => extraction(text@) == Some(request_views(found@)),
            None => extraction(text@) is None,
        },
        !has_tag_pair(text@) ==> requests is None,
{
    let inside = match enclosed_text(text) {
        Some(inside) => inside,
        None => { return None; },
    };
    let body = match first_group(REQUEST_PATTERN, inside) {
        Some(body) => body,
        None => { return None; },
    };
    let items = match parse_array(body.as_str()) {
        Some(items) => items,
        None => { return None; },
    };
    let ghost texts = crate::json::json_texts(items@);
    let mut entries: Vec<EntryFields> = Vec::new();
    let mut i: usize = 0;
    while i < items.len()
        invariant
            i <= items.len(),
            texts == crate::json::json_texts(items@),
            entries@.map_values(|e: EntryFields| e@) == texts.take(i as int).map_values(
                |e: Seq<char>| entry_fields(e),
            ),
        decreases items.len() - i,
    {
        let fields = read_entry(&items[i]);
        let ghost before = entries@;
        entries.push(fields);
        proof {
            assert(texts.take(i + 1) =~= texts.take(i as int).push(texts[i as int]));
            assert(entries@.map_values(|e: EntryFields| e@) =~= before.map_values(
                |e: EntryFields| e@,
            ).push(fields@));
            assert(texts.take(i + 1).map_values(|e: Seq<char>| entry_fields(e))
                =~= texts.take(i as int).map_values(|e: Seq<char>| entry_fields(e)).push(
                entry_fields(texts[i as int]),
            ));
        }
        i += 1;
    }
    assert(texts.take(i as int) =~= texts);
    Some(select_requests(entries))
}

} // verus!
