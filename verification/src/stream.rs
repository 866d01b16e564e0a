//! The framing of the model's answer stream.
//!
//! The backend sends its answer as server-sent events: blocks that are
//! separated by an empty line, of which those that begin with `data: ` carry a
//! JSON payload. A block whose payload is `[DONE]` is the end marker: the
//! answer ends there, and nothing that follows it is read, in the same chunk
//! or in a later one.

use vstd::prelude::*;
use crate::text::{has_prefix, pieces, same_text, split_text, starts_with_text, texts, trim_prefixes, without_prefixes};

verus! {

/// The marker in front of a payload.
pub open spec fn data_marker() -> Seq<char> {
    "data: "@
}

/// The payload of the end marker.
pub open spec fn done_payload() -> Seq<char> {
    "[DONE]"@
}

/// The separator of the blocks of a chunk.
pub open spec fn block_separator() -> Seq<char> {
    "\n\n"@
}

/// The payloads that `blocks` carry, in order, up to the first that says
/// that the answer is done. Blocks without the marker carry none.
pub open spec fn payloads(blocks: Seq<Seq<char>>) -> Seq<Seq<char>>
    decreases blocks.len(),
{
    if blocks.len() == 0 {
        Seq::empty()
    } else if !has_prefix(blocks[0], data_marker()) {
        payloads(blocks.skip(1))
    } else {
        let payload = without_prefixes(blocks[0], data_marker());
        if payload == done_payload() {
            Seq::empty()
        } else {
            seq![payload] + payloads(blocks.skip(1))
        }
    }
}

/// Whether `blocks` hold the end marker.
pub open spec fn ends_stream(blocks: Seq<Seq<char>>) -> bool
    decreases blocks.len(),
{
    if blocks.len() == 0 {
        false
    } else if has_prefix(blocks[0], data_marker()) && without_prefixes(blocks[0], data_marker())
        == done_payload() {
        true
    } else {
        ends_stream(blocks.skip(1))
    }
}

/// The blocks of a chunk.
pub open spec fn blocks_of(chunk: Seq<char>) -> Seq<Seq<char>> {
    pieces(chunk, block_separator())
}

/// What one chunk of the answer stream carries.
#[derive(Clone, Debug, PartialEq, Eq)]
pub struct ChunkFrames {
    /// The JSON payloads in front of the end marker, in order.
    pub payloads: Vec<String>,
    /// Whether the chunk holds the end marker.
    pub done: bool,
}

/// Takes one chunk of the answer stream apart: hands out the JSON payloads
/// that it carries in front of the end marker, in order, and tells whether
/// it holds the end marker.
pub fn read_chunk(chunk: &str) -> (frames: ChunkFrames)
    ensures
        texts(frames.payloads@) == payloads(blocks_of(chunk@)),
        frames.done == ends_stream(blocks_of(chunk@)),
{
    proof {
        reveal_strlit("\n\n");
        reveal_strlit("data: ");
    }
    let blocks = split_text(chunk, "\n\n");
    let ghost all = texts(blocks@);
    let mut found: Vec<String> = Vec::new();
    let mut done = false;
    let mut i: usize = 0;
    assert(all.skip(0) =~= all);
    assert(texts(found@) + payloads(all) =~= payloads(all));
    while i < blocks.len() && !done
        invariant
            i <= blocks.len(),
            all == texts(blocks@),
            "data: "@.len() > 0,
            payloads(all) == texts(found@) + if done {
                Seq::<Seq<char>>::empty()
            } else {
                payloads(all.skip(i as int))
            },
            ends_stream(all) == (done || ends_stream(all.skip(i as int))),
        decreases blocks.len() - i,
    {
        let block = blocks[i].as_str();
        let ghost rest = all.skip(i as int);
        proof {
            assert(rest[0] == block@);
            assert(rest.skip(1) =~= all.skip(i + 1));
        }
        if starts_with_text(block, "data: ") {
            let payload = trim_prefixes(block, "data: ");
            if same_text(payload, "[DONE]") {
                done = true;
            } else {
                let ghost before = found@;
                found.push(payload.to_string());
                proof {
                    assert(texts(found@) =~= texts(before).push(payload@));
                    assert(texts(before) + (seq![payload@] + payloads(all.skip(i + 1)))
                        =~= texts(found@) + payloads(all.skip(i + 1)));
                }
            }
        }
        i += 1;
    }
    proof {
        if !done {
            assert(all.skip(i as int).len() == 0);
        }
        assert(texts(found@) + Seq::<Seq<char>>::empty() =~= texts(found@));
    }
    ChunkFrames { payloads: found, done }
}

/// The payloads that the chunks of one answer carry, in order, up to the end
/// marker.
pub open spec fn stream_payloads(chunks: Seq<Seq<char>>) -> Seq<Seq<char>>
    decreases chunks.len(),
{
    if chunks.len() == 0 {
        Seq::empty()
    } else if stream_ended(chunks.drop_last()) {
        stream_payloads(chunks.drop_last())
    } else {
        stream_payloads(chunks.drop_last()) + payloads(blocks_of(chunks.last()))
    }
}

/// Whether one of `chunks` holds the end marker.
pub open spec fn stream_ended(chunks: Seq<Seq<char>>) -> bool
    decreases chunks.len(),
{
    if chunks.len() == 0 {
        false
    } else {
        stream_ended(chunks.drop_last()) || ends_stream(blocks_of(chunks.last()))
    }
}

/// The reader of one answer stream. It remembers the end marker, so that
/// nothing behind it is handed out.
#[derive(Debug)]
pub struct StreamReader {
    done: bool,
}

impl View for StreamReader {
    type V = bool;

    /// Whether the end marker has come.
    closed spec fn view(&self) -> bool {
        self.done
    }
}

impl StreamReader {
    /// A reader at the start of an answer.
    pub fn new() -> (reader: StreamReader)
        ensures
            !reader@,
    {
        StreamReader { done: false }
    }

    /// Whether the end marker has come.
    pub fn is_done(&self) -> (done: bool)
        ensures
            done == self@,
    {
        self.done
    }

    /// Reads the next chunk and hands out the payloads that it adds to the
    /// answer: those in front of the end marker, and none once the end marker
    /// has come.
    pub fn read(&mut self, chunk: &str) -> (found: Vec<String>)
        ensures
            final(self)@ == (old(self)@ || ends_stream(blocks_of(chunk@))),
            texts(found@) == if old(self)@ {
                Seq::<Seq<char>>::empty()
            } else {
                payloads(blocks_of(chunk@))
            },
    {
        if self.done {
            let found: Vec<String> = Vec::new();
            assert(texts(found@) =~= Seq::<Seq<char>>::empty());
            found
        } else {
            let frames = read_chunk(chunk);
            self.done = frames.done;
            frames.payloads
        }
    }
}

/// Reading one more chunk adds to the answer what `StreamReader::read` hands
/// out for it: the payloads in front of its end marker where the stream has
/// not ended, and nothing where it has.
pub proof fn lemma_read_adds_to_the_stream(chunks: Seq<Seq<char>>, chunk: Seq<char>)
    ensures
        stream_ended(chunks.push(chunk)) == (stream_ended(chunks) || ends_stream(blocks_of(chunk))),
        stream_payloads(chunks.push(chunk)) == stream_payloads(chunks) + if stream_ended(chunks) {
            Seq::<Seq<char>>::empty()
        } else {
            payloads(blocks_of(chunk))
        },
{
    assert(chunks.push(chunk).drop_last() =~= chunks);
    assert(stream_payloads(chunks) + Seq::<Seq<char>>::empty() =~= stream_payloads(chunks));
}

/// Nothing behind the end marker belongs to the answer: once it has come,
/// further chunks add no payload.
pub proof fn lemma_nothing_follows_the_end(chunks: Seq<Seq<char>>, later: Seq<char>)
    requires
        stream_ended(chunks),
    ensures
        stream_payloads(chunks.push(later)) == stream_payloads(chunks),
        stream_ended(chunks.push(later)),
{
    assert(chunks.push(later).drop_last() =~= chunks);
}

} // verus!
