use chat_relay::stream::{read_chunk, ChunkFrames, StreamReader};

fn owned(items: &[&str]) -> Vec<String> {
    items.iter().map(|s| s.to_string()).collect()
}

fn frames(payloads: &[&str], done: bool) -> ChunkFrames {
    ChunkFrames { payloads: owned(payloads), done }
}

#[test]
fn payloads_of_data_blocks_are_handed_out_in_order() {
    assert_eq!(
        read_chunk("data: {\"a\":1}\n\ndata: {\"b\":2}\n\n"),
        frames(&["{\"a\":1}", "{\"b\":2}"], false)
    );
}

#[test]
fn blocks_without_the_marker_carry_nothing() {
    assert_eq!(read_chunk(""), frames(&[], false));
    assert_eq!(read_chunk("\n\n"), frames(&[], false));
    assert_eq!(read_chunk(": keep-alive\n\nevent: ping\n\ndata: x"), frames(&["x"], false));
    assert_eq!(read_chunk(" data: x\n\ndata:y"), frames(&[], false));
    assert_eq!(read_chunk("[DONE]\n\ndata: x"), frames(&["x"], false));
}

#[test]
fn end_marker_ends_the_payloads_and_is_reported() {
    assert_eq!(read_chunk("data: one\n\ndata: [DONE]\n\ndata: two\n\n"), frames(&["one"], true));
    assert_eq!(read_chunk("data: [DONE]"), frames(&[], true));
    assert_eq!(read_chunk("data: [DONE] "), frames(&["[DONE] "], false));
}

#[test]
fn repeated_markers_are_all_taken_off() {
    assert_eq!(read_chunk("data: data: data: x"), frames(&["x"], false));
    assert_eq!(read_chunk("data: data: [DONE]\n\ndata: y"), frames(&[], true));
    assert_eq!(read_chunk("data: "), frames(&[""], false));
}

#[test]
fn single_line_feeds_do_not_separate_blocks() {
    assert_eq!(read_chunk("data: a\ndata: b\n\ndata: c"), frames(&["a\ndata: b", "c"], false));
    assert_eq!(read_chunk("data: a\n\n\ndata: b"), frames(&["a"], false));
    assert_eq!(read_chunk("data: a\n\n\n\ndata: b"), frames(&["a", "b"], false));
}

#[test]
fn nothing_is_read_behind_the_end_marker() {
    let mut reader = StreamReader::new();
    assert!(!reader.is_done());
    assert_eq!(reader.read("data: a\n\n"), owned(&["a"]));
    assert!(!reader.is_done());
    assert_eq!(reader.read("data: [DONE]\n\n"), owned(&[]));
    assert!(reader.is_done());
    assert_eq!(reader.read("data: b\n\n"), owned(&[]));
    assert!(reader.is_done());
}

#[test]
fn end_marker_inside_a_chunk_cuts_that_chunk() {
    let mut reader = StreamReader::new();
    assert_eq!(reader.read("data: a\n\ndata: [DONE]\n\ndata: b"), owned(&["a"]));
    assert!(reader.is_done());
    assert_eq!(reader.read("data: c"), owned(&[]));
}
