use chat_relay::markup::{enclosed_text, holds_tag_pair, MarkupFilter};

fn flags(fragments: &[&str]) -> (Vec<bool>, String) {
    let mut filter = MarkupFilter::new();
    let mut visible = Vec::new();
    for fragment in fragments {
        visible.push(filter.feed(fragment));
    }
    (visible, filter.take())
}

#[test]
fn fresh_filter_shows_plain_text() {
    let mut filter = MarkupFilter::new();
    assert!(!filter.is_suppressing());
    assert_eq!(filter.raw(), "");
    assert!(filter.feed("Hello"));
    assert!(filter.feed(", world"));
    assert!(!filter.is_suppressing());
    assert_eq!(filter.raw(), "Hello, world");
}

#[test]
fn request_is_suppressed_from_opening_to_closing_fragment() {
    let (visible, raw) = flags(&[
        "Let me see. ",
        "x<tool_request>[",
        "{\"name\":\"add\",",
        "\"arguments\":{}}",
        "]</tool_request>y",
        " Done.",
    ]);
    assert_eq!(visible, vec![true, false, false, false, false, true]);
    assert_eq!(
        raw,
        "Let me see. x<tool_request>[{\"name\":\"add\",\"arguments\":{}}]</tool_request>y Done."
    );
}

#[test]
fn request_inside_one_fragment_suppresses_that_fragment_only() {
    let (visible, _) = flags(&["a", "<tool_request>[]</tool_request>", "b"]);
    assert_eq!(visible, vec![true, false, true]);
}

#[test]
fn unclosed_request_suppresses_the_rest() {
    let mut filter = MarkupFilter::new();
    assert!(!filter.feed("<tool_request>"));
    assert!(filter.is_suppressing());
    assert!(!filter.feed("still hidden"));
    assert!(filter.is_suppressing());
}

#[test]
fn closing_tag_alone_is_shown_and_changes_nothing() {
    let (visible, _) = flags(&["a", "</tool_request>", "b"]);
    assert_eq!(visible, vec![true, true, true]);
}

#[test]
fn tag_split_over_two_fragments_is_not_seen() {
    let (visible, raw) = flags(&["<tool_req", "uest>[]", "</tool_request>", "after"]);
    assert_eq!(visible, vec![true, true, true, true]);
    assert_eq!(raw, "<tool_req" .to_string() + "uest>[]</tool_request>after");
}

#[test]
fn take_hands_out_the_text_and_resets() {
    let mut filter = MarkupFilter::new();
    filter.feed("one <tool_request>");
    assert!(filter.is_suppressing());
    assert_eq!(filter.take(), "one <tool_request>");
    assert!(!filter.is_suppressing());
    assert_eq!(filter.raw(), "");
    assert!(filter.feed("two"));
}

#[test]
fn tag_pair_needs_the_opening_tag_in_front() {
    assert!(holds_tag_pair("<tool_request></tool_request>"));
    assert!(holds_tag_pair("a<tool_request>b</tool_request>c"));
    assert!(holds_tag_pair("</tool_request><tool_request><tool_request></tool_request>"));
    assert!(!holds_tag_pair(""));
    assert!(!holds_tag_pair("<tool_request>"));
    assert!(!holds_tag_pair("</tool_request>"));
    assert!(!holds_tag_pair("</tool_request><tool_request>"));
    assert!(!holds_tag_pair("<tool_request>/tool_request>"));
    assert!(!holds_tag_pair("<tool_request</tool_request>"));
}

#[test]
fn first_tag_pair_encloses_up_to_the_first_closing_tag() {
    assert_eq!(enclosed_text("a<tool_request>b</tool_request>c"), Some("b"));
    assert_eq!(enclosed_text("<tool_request></tool_request>"), Some(""));
    assert_eq!(
        enclosed_text("<tool_request>one</tool_request><tool_request>two</tool_request>"),
        Some("one")
    );
    assert_eq!(enclosed_text("<tool_request>a<tool_request>b</tool_request>"), Some("a<tool_request>b"));
    assert_eq!(enclosed_text("</tool_request>x<tool_request>y</tool_request>z"), Some("y"));
    assert_eq!(enclosed_text("</tool_request><tool_request>"), None);
    assert_eq!(enclosed_text("no tags"), None);
}
