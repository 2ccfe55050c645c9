//! Stream translation: Format-B event-stream records in, Format-A events out.
//!
//! A network chunk is framed into records here; the caller decodes each data
//! record into an [`OpenAIStreamResponse`] and hands the result to a
//! [`StreamTranslator`], which decides what to emit. The sentinel record ends
//! the whole stream, not only the chunk it arrives in. Streamed tool-call
//! deltas are not translated: only text deltas produce events.
use crate::json::{json_quoted, quote_json};
use crate::models::{opt_text, OpenAIStreamResponse};
use crate::text::{chars_of, has_prefix_at, string_of_range};
use vstd::prelude::*;

verus! {

/// A record of a Format-B event stream, after its `data: ` prefix.
#[derive(Clone, Debug)]
pub enum StreamRecord {
    /// The literal `[DONE]`.
    Sentinel,
    /// Any other payload, to be decoded as a stream chunk.
    Data(String),
}

pub ghost enum RecordView {
    Sentinel,
    Data(Seq<char>),
}

impl View for StreamRecord {
    type V = RecordView;

    open spec fn view(&self) -> RecordView {
        match self {
            StreamRecord::Sentinel => RecordView::Sentinel,
            StreamRecord::Data(s) => RecordView::Data(s@),
        }
    }
}

pub open spec fn records_view(v: Seq<StreamRecord>) -> Seq<RecordView> {
    v.map_values(|r: StreamRecord| r@)
}

/// A blank line (two newlines) starts at `i`.
pub open spec fn blank_at(s: Seq<char>, i: int) -> bool {
    0 <= i && i + 1 < s.len() && s[i] == '\n' && s[i + 1] == '\n'
}

/// The pieces of `s[start..]` between blank lines, scanning from `i`; each
/// blank line ends the piece before it, leftmost first.
pub open spec fn pieces_from(s: Seq<char>, i: int, start: int) -> Seq<Seq<char>>
    decreases s.len() - i,
{
    if i >= s.len() {
        seq![s.subrange(start, s.len() as int)]
    } else if blank_at(s, i) {
        seq![s.subrange(start, i)] + pieces_from(s, i + 2, i + 2)
    } else {
        pieces_from(s, i + 1, start)
    }
}

/// `s` split at every blank line.
pub open spec fn split_blank_lines(s: Seq<char>) -> Seq<Seq<char>> {
    pieces_from(s, 0, 0)
}

/// The record a piece holds: none unless it starts with `data: `.
pub open spec fn record_of_piece(p: Seq<char>) -> Option<RecordView> {
    if 6 <= p.len() && p.subrange(0, 6) == "data: "@ {
        if p.subrange(6, p.len() as int) == "[DONE]"@ {
            Some(RecordView::Sentinel)
        } else {
            Some(RecordView::Data(p.subrange(6, p.len() as int)))
        }
    } else {
        None
    }
}

pub open spec fn records_of_pieces(ps: Seq<Seq<char>>) -> Seq<RecordView>
    decreases ps.len(),
{
    if ps.len() == 0 {
        Seq::empty()
    } else {
        records_of_pieces(ps.drop_last()) + match record_of_piece(ps.last()) {
            Some(r) => seq![r],
            None => Seq::empty(),
        }
    }
}

/// The records of a network chunk, in order.
pub open spec fn records_spec(chunk: Seq<char>) -> Seq<RecordView> {
    records_of_pieces(split_blank_lines(chunk))
}

pub open spec fn ranges_view(cs: Seq<char>, rs: Seq<(usize, usize)>) -> Seq<Seq<char>> {
    rs.map_values(|r: (usize, usize)| cs.subrange(r.0 as int, r.1 as int))
}

/// The start and end of each piece of `cs` between blank lines.
fn piece_ranges(cs: &Vec<char>) -> (r: Vec<(usize, usize)>)
    ensures
        ranges_view(cs@, r@) == split_blank_lines(cs@),
        forall|k: int| 0 <= k < r@.len() ==> #[trigger] r@[k].0 <= r@[k].1 <= cs@.len(),
{
    let n = cs.len();
    let mut out: Vec<(usize, usize)> = Vec::new();
    let mut i: usize = 0;
    let mut start: usize = 0;
    while i < n
        invariant
            n == cs@.len(),
            start <= i <= n,
            split_blank_lines(cs@) == ranges_view(cs@, out@) + pieces_from(
                cs@,
                i as int,
                start as int,
            ),
            forall|k: int| 0 <= k < out@.len() ==> #[trigger] out@[k].0 <= out@[k].1 <= n,
        decreases n - i,
    {
        if i + 1 < n && cs[i] == '\n' && cs[i + 1] == '\n' {
            let ghost before = out@;
            out.push((start, i));
            assert(ranges_view(cs@, out@) =~= ranges_view(cs@, before) + seq![
                cs@.subrange(start as int, i as int),
            ]);
            i = i + 2;
            start = i;
        } else {
            i = i + 1;
        }
    }
    let ghost before = out@;
    out.push((start, n));
    assert(ranges_view(cs@, out@) =~= ranges_view(cs@, before) + seq![
        cs@.subrange(start as int, n as int),
    ]);
    out
}

/// Frames one network chunk into its records, in order: pieces between blank
/// lines that start with `data: `, with that prefix taken off.
pub fn split_records(chunk: &str) -> (r: Vec<StreamRecord>)
    ensures
        records_view(r@) == records_spec(chunk@),
{
    let cs = chars_of(chunk);
    let ranges = piece_ranges(&cs);
    let prefix = chars_of("data: ");
    let sentinel = chars_of("[DONE]");
    let ghost ps = split_blank_lines(cs@);
    let mut out: Vec<StreamRecord> = Vec::new();
    let mut j: usize = 0;
    while j < ranges.len()
        invariant
            prefix@ == "data: "@,
            sentinel@ == "[DONE]"@,
            ps == ranges_view(cs@, ranges@),
            forall|k: int| 0 <= k < ranges@.len() ==> #[trigger] ranges@[k].0 <= ranges@[k].1 <= cs@.len(),
            j <= ranges@.len(),
            records_view(out@) == records_of_pieces(ps.subrange(0, j as int)),
        decreases ranges@.len() - j,
    {
        let (a, b) = ranges[j];
        assert(ranges@[j as int].0 <= ranges@[j as int].1 <= cs@.len());
        let ghost p = cs@.subrange(a as int, b as int);
        assert(ps.subrange(0, j + 1).drop_last() =~= ps.subrange(0, j as int));
        assert(ps.subrange(0, j + 1).last() == p);
        let ghost before = out@;
        proof {
            reveal_strlit("data: ");
            reveal_strlit("[DONE]");
        }
        if has_prefix_at(&cs, a, b, &prefix) {
            assert(p.subrange(0, 6) =~= cs@.subrange(a as int, a + 6));
            assert(p.subrange(6, p.len() as int) =~= cs@.subrange(a + 6, b as int));
            let is_sentinel = b - (a + 6) == 6 && has_prefix_at(&cs, a + 6, b, &sentinel);
            if is_sentinel {
                assert(cs@.subrange(a + 6, b as int) =~= cs@.subrange(a + 6, a + 12));
                out.push(StreamRecord::Sentinel);
            } else {
                if b - (a + 6) == 6 {
                    assert(cs@.subrange(a + 6, b as int) =~= cs@.subrange(a + 6, a + 12));
                }
                let payload = string_of_range(&cs, a + 6, b);
                out.push(StreamRecord::Data(payload));
            }
            assert(records_view(out@) =~= records_view(before).push(out@.last()@));
        } else {
            assert(p.len() >= 6 ==> p.subrange(0, 6) =~= cs@.subrange(a as int, a + 6));
        }
        assert(records_view(out@) =~= records_of_pieces(ps.subrange(0, j + 1)));
        j = j + 1;
    }
    assert(ps.subrange(0, ranges@.len() as int) =~= ps);
    out
}

/// The text a decoded stream chunk carries: the first choice's delta content,
/// when there is a first choice and the content is present.
pub open spec fn chunk_text(c: OpenAIStreamResponse) -> Option<Seq<char>> {
    if c.choices@.len() > 0 {
        opt_text(c.choices@[0].delta.content)
    } else {
        None
    }
}

/// The `content_block_delta` event for a text delta, at block index 0.
pub open spec fn text_delta_event(text: Seq<char>) -> Seq<char> {
    "event: content_block_delta\ndata: {\"delta\":{\"text\":"@ + json_quoted(text)
        + ",\"type\":\"text_delta\"},\"index\":0,\"type\":\"content_block_delta\"}\n\n"@
}

/// The terminal `message_stop` event.
pub open spec fn message_stop_event() -> Seq<char> {
    "event: message_stop\ndata: {\"type\":\"message_stop\"}\n\n"@
}

/// Renders the `content_block_delta` event for a text delta.
pub fn content_block_delta(text: &str) -> (r: String)
    ensures
        r@ == text_delta_event(text@),
{
    let q = quote_json(text);
    String::from_str("event: content_block_delta\ndata: {\"delta\":{\"text\":").concat(
        q.as_str(),
    ).concat(",\"type\":\"text_delta\"},\"index\":0,\"type\":\"content_block_delta\"}\n\n")
}

/// Renders the `message_stop` event.
pub fn message_stop() -> (r: String)
    ensures
        r@ == message_stop_event(),
{
    String::from_str("event: message_stop\ndata: {\"type\":\"message_stop\"}\n\n")
}

/// The state of one stream translation.
#[derive(Clone, Copy, Debug, PartialEq, Eq, Structural)]
pub enum StreamState {
    /// Records are still being translated.
    Streaming,
    /// The input has ended; the terminal event is still owed.
    Done,
    /// The terminal event has been emitted; nothing more will be.
    Stopped,
}

/// Decides, record by record, which Format-A events a stream produces.
#[derive(Clone, Copy, Debug)]
pub struct StreamTranslator {
    pub state: StreamState,
}

impl StreamTranslator {
    pub fn new() -> (r: StreamTranslator)
        ensures
            r.state == StreamState::Streaming,
    {
        StreamTranslator { state: StreamState::Streaming }
    }

    /// Whether the input has ended, so that no more records are to be read.
    pub fn is_done(&self) -> (r: bool)
        ensures
            r == (self.state != StreamState::Streaming),
    {
        !matches!(self.state, StreamState::Streaming)
    }

    /// Translates one decoded data record; `None` stands for a record that did
    /// not decode, which is dropped. A chunk with non-empty text yields one
    /// `content_block_delta` event while streaming; nothing else yields one.
    pub fn on_chunk(&mut self, chunk: Option<&OpenAIStreamResponse>) -> (r: Option<String>)
        ensures
            final(self).state == old(self).state,
            r is Some <==> (old(self).state == StreamState::Streaming && chunk is Some
                && chunk_text(*chunk->Some_0) is Some && chunk_text(*chunk->Some_0)->Some_0.len()
                > 0),
            r is Some ==> r->Some_0@ == text_delta_event(chunk_text(*chunk->Some_0)->Some_0),
    {
        if !matches!(self.state, StreamState::Streaming) {
            return None;
        }
        match chunk {
            None => None,
            Some(c) => {
                if c.choices.len() == 0 {
                    return None;
                }
                match &c.choices[0].delta.content {
                    Some(text) => {
                        if text.unicode_len() > 0 {
                            Some(content_block_delta(text.as_str()))
                        } else {
                            None
                        }
                    },
                    None => None,
                }
            },
        }
    }

    /// Handles one framed record whose data, if any, the caller has decoded.
    /// The sentinel ends the input.
    pub fn on_record(&mut self, record: &StreamRecord, chunk: Option<&OpenAIStreamResponse>) -> (r:
        Option<String>)
        ensures
            record is Sentinel ==> r is None && final(self).state == (
            if old(self).state == StreamState::Streaming {
                StreamState::Done
            } else {
                old(self).state
            }),
            record is Data ==> final(self).state == old(self).state && (r is Some <==> (
            old(self).state == StreamState::Streaming && chunk is Some && chunk_text(
                *chunk->Some_0,
            ) is Some && chunk_text(*chunk->Some_0)->Some_0.len() > 0)) && (r is Some
                ==> r->Some_0@ == text_delta_event(chunk_text(*chunk->Some_0)->Some_0)),
    {
        match record {
            StreamRecord::Sentinel => {
                self.end_of_input();
                None
            },
            StreamRecord::Data(_) => self.on_chunk(chunk),
        }
    }

    /// The input has ended: by the sentinel, by the connection closing, or by
    /// an upstream failure.
    pub fn end_of_input(&mut self)
        ensures
            final(self).state == (if old(self).state == StreamState::Streaming {
                StreamState::Done
            } else {
                old(self).state
            }),
    {
        if matches!(self.state, StreamState::Streaming) {
            self.state = StreamState::Done;
        }
    }

    /// Ends the stream: the terminal `message_stop` event the first time,
    /// nothing after that.
    pub fn finish(&mut self) -> (r: Option<String>)
        ensures
            final(self).state == StreamState::Stopped,
            r is Some <==> old(self).state != StreamState::Stopped,
            r is Some ==> r->Some_0@ == message_stop_event(),
    {
        if matches!(self.state, StreamState::Stopped) {
            None
        } else {
            self.state = StreamState::Stopped;
            Some(message_stop())
        }
    }
}

} // verus!
