//! Line framing of the streaming formats: server-sent events (`event:` and
//! `data:` lines) and newline-delimited JSON.
//!
//! A [`StreamDecoder`] receives the network chunks of a streaming response
//! one at a time. It decodes each chunk as UTF-8 (lossily), appends it to
//! what is left of earlier chunks, and cuts complete lines off the front.
//! Every line is trimmed and classified; the payload lines come out as
//! [`StreamFrame`]s, in order, each with the name of the event it belongs
//! to. An incomplete last line stays buffered until a later chunk ends it.
use vstd::prelude::*;

use crate::text::{
    trim_end, trim_start, copy_opt, decode_utf8_lossy, has_prefix, string_of, trim, trimmed_range, chars_of,
    utf8_lossy_text,
};

verus! {

/// The streaming dialects that the providers speak.
#[derive(Debug, Clone, Copy, PartialEq, Eq, Structural)]
pub enum StreamFormat {
    /// OpenAI-compatible SSE: `data:` lines; a `[DONE]` payload ends the
    /// stream.
    OpenAi,
    /// Named events (`event:` then `data:`), as Anthropic sends them; no
    /// `[DONE]` marker.
    NamedEvents,
    /// Named events; a `[DONE]` payload ends the processing of the current
    /// network chunk, and a later chunk is read again (OpenAI Responses /
    /// Perplexity Agent).
    NamedEventsUntilDone,
    /// `data:` lines; a `[DONE]` payload ends the processing of the current
    /// network chunk, and a later chunk is read again (Cloudflare Workers
    /// AI).
    DataUntilDoneInChunk,
    /// `data:` lines only, no `[DONE]` marker (Gemini).
    DataOnly,
    /// Newline-delimited JSON: every non-blank line is a payload (Ollama).
    Ndjson,
    /// Named events with a `[DONE]` payload ending the stream (agent
    /// runtimes).
    AgentEvents,
}

/// Whether the format reads `event:` lines.
pub open spec fn tracks_events(f: StreamFormat) -> bool {
    f == StreamFormat::NamedEvents || f == StreamFormat::NamedEventsUntilDone || f
        == StreamFormat::AgentEvents
}

/// Whether a `[DONE]` payload stops the reading of the current text.
pub open spec fn stops_at_done(f: StreamFormat) -> bool {
    f == StreamFormat::OpenAi || f == StreamFormat::NamedEventsUntilDone || f
        == StreamFormat::DataUntilDoneInChunk || f == StreamFormat::AgentEvents
}

/// Whether a `[DONE]` payload ends the whole stream, later chunks included.
pub open spec fn finishes_at_done(f: StreamFormat) -> bool {
    f == StreamFormat::OpenAi || f == StreamFormat::AgentEvents
}

pub open spec fn event_prefix() -> Seq<char> {
    seq!['e', 'v', 'e', 'n', 't', ':']
}

pub open spec fn data_prefix() -> Seq<char> {
    seq!['d', 'a', 't', 'a', ':']
}

pub open spec fn done_marker() -> Seq<char> {
    seq!['[', 'D', 'O', 'N', 'E', ']']
}

/// What a trimmed line means.
pub enum LineKind {
    /// An empty line: it ends the current event.
    Blank,
    /// `event: <name>`.
    Event(Seq<char>),
    /// A payload.
    Data(Seq<char>),
    /// The `[DONE]` marker.
    Done,
    /// Anything else; ignored.
    Skip,
}

/// The meaning of a trimmed line in a format.
pub open spec fn classify(f: StreamFormat, line: Seq<char>) -> LineKind {
    if line.len() == 0 {
        LineKind::Blank
    } else if tracks_events(f) && event_prefix().is_prefix_of(line) {
        LineKind::Event(trim(line.subrange(6, line.len() as int)))
    } else if f == StreamFormat::Ndjson {
        LineKind::Data(line)
    } else if data_prefix().is_prefix_of(line) {
        let d = trim(line.subrange(5, line.len() as int));
        if stops_at_done(f) && d == done_marker() {
            LineKind::Done
        } else {
            LineKind::Data(d)
        }
    } else {
        LineKind::Skip
    }
}

/// The index of the first `'\n'` in `s`, or -1 when there is none.
pub open spec fn line_end(s: Seq<char>) -> int
    decreases s.len(),
{
    if s.len() == 0 {
        -1
    } else if s[0] == '\n' {
        0
    } else {
        let k = line_end(s.drop_first());
        if k < 0 {
            -1
        } else {
            k + 1
        }
    }
}

/// A payload together with the event it belongs to.
pub struct FrameView {
    pub event: Option<Seq<char>>,
    pub data: Seq<char>,
}

/// The outcome of reading buffered text: the current event afterwards, the
/// text left unread, the frames produced, and whether a `[DONE]` marker
/// stopped the reading.
pub struct Reading {
    pub event: Option<Seq<char>>,
    pub rest: Seq<char>,
    pub frames: Seq<FrameView>,
    pub stopped: bool,
}

/// Reads the complete lines of `s`, starting with current event `event`.
pub open spec fn read_lines(f: StreamFormat, event: Option<Seq<char>>, s: Seq<char>) -> Reading
    decreases s.len(),
{
    let k = line_end(s);
    if k < 0 || k >= s.len() {
        Reading { event, rest: s, frames: Seq::empty(), stopped: false }
    } else {
        let line = trim(s.subrange(0, k));
        let rest = s.subrange(k + 1, s.len() as int);
        match classify(f, line) {
            LineKind::Blank => read_lines(f, None, rest),
            LineKind::Event(name) => read_lines(f, Some(name), rest),
            LineKind::Skip => read_lines(f, event, rest),
            LineKind::Done => Reading { event, rest, frames: Seq::empty(), stopped: true },
            LineKind::Data(d) => {
                let r = read_lines(f, event, rest);
                Reading {
                    event: r.event,
                    rest: r.rest,
                    frames: seq![FrameView { event, data: d }] + r.frames,
                    stopped: r.stopped,
                }
            },
        }
    }
}

/// The state of a decoder: its format, the unread text, the current event,
/// and whether the stream has ended for good.
pub struct DecoderView {
    pub format: StreamFormat,
    pub buffer: Seq<char>,
    pub event: Option<Seq<char>>,
    pub finished: bool,
}

/// One payload line of a stream, with the event it belongs to.
#[derive(Debug, Clone)]
pub struct StreamFrame {
    /// The event name in force (`event:` line) when the payload came, if any.
    pub event: Option<String>,
    /// The payload: the text after `data:` (trimmed), or the whole line in
    /// newline-delimited JSON.
    pub data: String,
}

pub open spec fn opt_view(o: Option<String>) -> Option<Seq<char>> {
    match o {
        Some(s) => Some(s@),
        None => None,
    }
}

pub open spec fn frame_view(fr: StreamFrame) -> FrameView {
    FrameView { event: opt_view(fr.event), data: fr.data@ }
}

/// Decoder of one streaming response.
#[derive(Debug)]
pub struct StreamDecoder {
    format: StreamFormat,
    buffer: Vec<char>,
    event: Option<String>,
    finished: bool,
}

impl View for StreamDecoder {
    type V = DecoderView;

    closed spec fn view(&self) -> DecoderView {
        DecoderView {
            format: self.format,
            buffer: self.buffer@,
            event: opt_view(self.event),
            finished: self.finished,
        }
    }
}

/// The decoder state and the frames after reading `text` from state `d`.
pub open spec fn decoded(d: DecoderView, text: Seq<char>) -> (DecoderView, Seq<FrameView>) {
    if d.finished {
        (d, Seq::empty())
    } else {
        let r = read_lines(d.format, d.event, d.buffer + text);
        (
            DecoderView {
                format: d.format,
                buffer: r.rest,
                event: r.event,
                finished: finishes_at_done(d.format) && r.stopped,
            },
            r.frames,
        )
    }
}

proof fn lemma_line_end(s: Seq<char>, k: int)
    requires
        0 <= k <= s.len(),
        forall|i: int| 0 <= i < k ==> s[i] != '\n',
    ensures
        k < s.len() && s[k] == '\n' ==> line_end(s) == k,
        k == s.len() ==> line_end(s) == -1,
    decreases k,
{
    if k > 0 {
        let t = s.drop_first();
        assert forall|i: int| 0 <= i < k - 1 implies t[i] != '\n' by {
            assert(t[i] == s[i + 1]);
        }
        lemma_line_end(t, k - 1);
        if k < s.len() {
            assert(t[k - 1] == s[k]);
        }
    }
}

proof fn lemma_line_end_bounds(s: Seq<char>)
    ensures
        line_end(s) == -1 || (0 <= line_end(s) < s.len() && s[line_end(s)] == '\n'),
        forall|i: int| 0 <= i < line_end(s) ==> s[i] != '\n',
        line_end(s) == -1 ==> forall|i: int| 0 <= i < s.len() ==> s[i] != '\n',
    decreases s.len(),
{
    if s.len() > 0 && s[0] != '\n' {
        let t = s.drop_first();
        lemma_line_end_bounds(t);
        assert forall|i: int| 0 < i < s.len() implies s[i] == t[i - 1] by {}
    }
}

impl StreamDecoder {
    /// A decoder for a fresh stream: nothing buffered, no current event.
    pub fn new(format: StreamFormat) -> (r: Self)
        ensures
            r@ == (DecoderView {
                format,
                buffer: Seq::empty(),
                event: None,
                finished: false,
            }),
    {
        StreamDecoder { format, buffer: Vec::new(), event: None, finished: false }
    }

    /// The text of one network chunk (a byte sequence) after lossy UTF-8
    /// decoding.
    pub open spec fn chunk_text(bytes: Seq<u8>) -> Seq<char> {
        utf8_lossy_text(bytes)
    }

    /// Read one network chunk: decode it, append it to the unread text, and
    /// return the payloads of the complete lines, in order.
    pub fn feed(&mut self, bytes: &[u8]) -> (r: Vec<StreamFrame>)
        ensures
            final(self)@ == decoded(old(self)@, Self::chunk_text(bytes@)).0,
            r@.map_values(|fr: StreamFrame| frame_view(fr)) == decoded(
                old(self)@,
                Self::chunk_text(bytes@),
            ).1,
            vstd::utf8::valid_utf8(bytes@) ==> final(self)@ == decoded(
                old(self)@,
                vstd::utf8::decode_utf8(bytes@),
            ).0,
            vstd::utf8::valid_utf8(bytes@) ==> r@.map_values(|fr: StreamFrame| frame_view(fr))
                == decoded(old(self)@, vstd::utf8::decode_utf8(bytes@)).1,
    {
        if self.finished {
            let r: Vec<StreamFrame> = Vec::new();
            assert(r@.map_values(|fr: StreamFrame| frame_view(fr)) =~= Seq::<FrameView>::empty());
            return r;
        }
        let text = decode_utf8_lossy(bytes);
        self.feed_text(text.as_str())
    }

    /// Read already-decoded text, as [`feed`](Self::feed) does after
    /// decoding.
    pub fn feed_text(&mut self, text: &str) -> (r: Vec<StreamFrame>)
        ensures
            final(self)@ == decoded(old(self)@, text@).0,
            r@.map_values(|fr: StreamFrame| frame_view(fr)) == decoded(old(self)@, text@).1,
    {
        if self.finished {
            let r: Vec<StreamFrame> = Vec::new();
            assert(r@.map_values(|fr: StreamFrame| frame_view(fr)) =~= Seq::<FrameView>::empty());
            return r;
        }
        let incoming = chars_of(text);
        let mut i: usize = 0;
        while i < incoming.len()
            invariant
                0 <= i <= incoming.len(),
                self.buffer@ == old(self).buffer@ + incoming@.subrange(0, i as int),
                self.format == old(self).format,
                self.event == old(self).event,
                self.finished == old(self).finished,
            decreases incoming.len() - i,
        {
            self.buffer.push(incoming[i]);
            i = i + 1;
        }
        assert(incoming@.subrange(0, incoming@.len() as int) =~= text@);
        let ghost whole = self.buffer@;
        let ghost goal = read_lines(self.format, opt_view(self.event), whole);
        let f = self.format;
        let mut frames: Vec<StreamFrame> = Vec::new();
        let mut start: usize = 0;
        let mut stopped = false;
        assert(whole.subrange(0, whole.len() as int) =~= whole);
        assert(frames@.map_values(|fr: StreamFrame| frame_view(fr)) + goal.frames =~= goal.frames);
        loop
            invariant_except_break
                0 <= start <= self.buffer@.len(),
                self.buffer@ == whole,
                self.format == f,
                !stopped,
                ({
                    let cur = read_lines(f, opt_view(self.event), whole.subrange(start as int, whole.len() as int));
                    &&& goal.event == cur.event
                    &&& goal.rest == cur.rest
                    &&& goal.stopped == cur.stopped
                    &&& goal.frames == frames@.map_values(|fr: StreamFrame| frame_view(fr)) + cur.frames
                }),
            ensures
                0 <= start <= self.buffer@.len(),
                self.buffer@ == whole,
                self.format == f,
                goal.event == opt_view(self.event),
                goal.stopped == stopped,
                goal.rest == whole.subrange(start as int, whole.len() as int),
                goal.frames == frames@.map_values(|fr: StreamFrame| frame_view(fr)),
            decreases self.buffer@.len() - start,
        {
            let ghost s = whole.subrange(start as int, whole.len() as int);
            // Find the end of the next line.
            let mut pos = start;
            while pos < self.buffer.len() && self.buffer[pos] != '\n'
                invariant
                    start <= pos <= self.buffer@.len(),
                    self.buffer@ == whole,
                    forall|j: int| start <= j < pos ==> whole[j] != '\n',
                decreases self.buffer@.len() - pos,
            {
                pos = pos + 1;
            }
            proof {
                assert forall|j: int| 0 <= j < pos - start implies s[j] != '\n' by {
                    assert(s[j] == whole[j + start]);
                }
                if pos < self.buffer@.len() {
                    assert(s[pos - start] == whole[pos as int]);
                }
                lemma_line_end(s, pos - start);
            }
            if pos == self.buffer.len() {
                assert(frames@.map_values(|fr: StreamFrame| frame_view(fr)) + Seq::<FrameView>::empty()
                    =~= frames@.map_values(|fr: StreamFrame| frame_view(fr)));
                break;
            }
            let line = trimmed_range(&self.buffer, start, pos);
            let ghost rest = whole.subrange(pos + 1, whole.len() as int);
            proof {
                assert(s.subrange(0, pos - start) =~= whole.subrange(start as int, pos as int));
                assert(s.subrange(pos - start + 1, s.len() as int) =~= rest);
            }
            let ghost kind = classify(f, line@);
            let ghost old_frames = frames@.map_values(|fr: StreamFrame| frame_view(fr));
            start = pos + 1;
            if line.len() == 0 {
                self.event = None;
                continue;
            }
            let ev_prefix = vec!['e', 'v', 'e', 'n', 't', ':'];
            assert(ev_prefix@ =~= event_prefix());
            let is_event = (f == StreamFormat::NamedEvents || f == StreamFormat::NamedEventsUntilDone
                || f == StreamFormat::AgentEvents) && has_prefix(&line, &ev_prefix);
            if is_event {
                let name = trimmed_range(&line, 6, line.len());
                self.event = Some(string_of(name.as_slice()));
                continue;
            }
            let payload: Vec<char>;
            if f == StreamFormat::Ndjson {
                payload = line;
            } else {
                let data_pfx = vec!['d', 'a', 't', 'a', ':'];
                assert(data_pfx@ =~= data_prefix());
                let is_data = has_prefix(&line, &data_pfx);
                if !is_data {
                    continue;
                }
                let d = trimmed_range(&line, 5, line.len());
                let stops = f == StreamFormat::OpenAi || f == StreamFormat::NamedEventsUntilDone || f
                    == StreamFormat::DataUntilDoneInChunk || f == StreamFormat::AgentEvents;
                let marker = vec!['[', 'D', 'O', 'N', 'E', ']'];
                assert(marker@ =~= done_marker());
                if stops && crate::text::chars_eq(&d, &marker) {
                    stopped = true;
                    assert(frames@.map_values(|fr: StreamFrame| frame_view(fr)) + Seq::<FrameView>::empty()
                        =~= frames@.map_values(|fr: StreamFrame| frame_view(fr)));
                    break;
                }
                payload = d;
            }
            let frame = StreamFrame { event: copy_opt(&self.event), data: string_of(payload.as_slice()) };
            frames.push(frame);
            proof {
                let fv = FrameView { event: opt_view(self.event), data: payload@ };
                assert(frame_view(frame) == fv);
                assert(frames@.map_values(|fr: StreamFrame| frame_view(fr)) =~= old_frames.push(fv));
                let cur = read_lines(f, opt_view(self.event), rest);
                assert(old_frames.push(fv) + cur.frames =~= old_frames + (seq![fv] + cur.frames));
            }
        }
        let rest = crate::text::tail_from(&self.buffer, start);
        self.buffer = rest;
        self.finished = (f == StreamFormat::OpenAi || f == StreamFormat::AgentEvents) && stopped;
        frames
    }
}


proof fn lemma_line_end_append(s: Seq<char>, t: Seq<char>)
    ensures
        line_end(s) >= 0 ==> line_end(s + t) == line_end(s),
    decreases s.len(),
{
    if s.len() > 0 {
        if s[0] != '\n' {
            lemma_line_end_append(s.drop_first(), t);
            assert((s + t).drop_first() =~= s.drop_first() + t);
        }
    }
}

proof fn lemma_read_lines_append(f: StreamFormat, ev: Option<Seq<char>>, s: Seq<char>, t: Seq<char>)
    requires
        !read_lines(f, ev, s).stopped,
    ensures
        ({
            let r1 = read_lines(f, ev, s);
            let r2 = read_lines(f, r1.event, r1.rest + t);
            let r = read_lines(f, ev, s + t);
            &&& r.event == r2.event
            &&& r.rest == r2.rest
            &&& r.stopped == r2.stopped
            &&& r.frames == r1.frames + r2.frames
        }),
    decreases s.len(),
{
    let k = line_end(s);
    lemma_line_end_bounds(s);
    let r1 = read_lines(f, ev, s);
    if k < 0 {
        assert(r1.frames + read_lines(f, ev, s + t).frames =~= read_lines(f, ev, s + t).frames);
    } else {
        lemma_line_end_append(s, t);
        let st = s + t;
        assert(st.subrange(0, k) =~= s.subrange(0, k));
        let rest = s.subrange(k + 1, s.len() as int);
        assert(st.subrange(k + 1, st.len() as int) =~= rest + t);
        let line = trim(s.subrange(0, k));
        match classify(f, line) {
            LineKind::Blank => {
                lemma_read_lines_append(f, None, rest, t);
            },
            LineKind::Event(name) => {
                lemma_read_lines_append(f, Some(name), rest, t);
            },
            LineKind::Skip => {
                lemma_read_lines_append(f, ev, rest, t);
            },
            LineKind::Done => {},
            LineKind::Data(d) => {
                lemma_read_lines_append(f, ev, rest, t);
                let ra = read_lines(f, ev, rest);
                let rb = read_lines(f, ra.event, ra.rest + t);
                assert(seq![FrameView { event: ev, data: d }] + (ra.frames + rb.frames) =~= (seq![
                    FrameView { event: ev, data: d },
                ] + ra.frames) + rb.frames);
            },
        }
    }
}

/// In a format without a `[DONE]` marker, reading never stops early.
pub proof fn lemma_read_lines_never_stops(f: StreamFormat, ev: Option<Seq<char>>, s: Seq<char>)
    requires
        !stops_at_done(f),
    ensures
        !read_lines(f, ev, s).stopped,
    decreases s.len(),
{
    let k = line_end(s);
    lemma_line_end_bounds(s);
    if k >= 0 {
        let rest = s.subrange(k + 1, s.len() as int);
        let line = trim(s.subrange(0, k));
        match classify(f, line) {
            LineKind::Blank => lemma_read_lines_never_stops(f, None, rest),
            LineKind::Event(name) => lemma_read_lines_never_stops(f, Some(name), rest),
            _ => lemma_read_lines_never_stops(f, ev, rest),
        }
    }
}


proof fn lemma_read_lines_stopped_prefix(f: StreamFormat, ev: Option<Seq<char>>, s: Seq<char>, t: Seq<char>)
    requires
        read_lines(f, ev, s).stopped,
    ensures
        read_lines(f, ev, s + t).stopped,
    decreases s.len(),
{
    let k = line_end(s);
    lemma_line_end_bounds(s);
    if k >= 0 {
        lemma_line_end_append(s, t);
        let st = s + t;
        assert(st.subrange(0, k) =~= s.subrange(0, k));
        let rest = s.subrange(k + 1, s.len() as int);
        assert(st.subrange(k + 1, st.len() as int) =~= rest + t);
        let line = trim(s.subrange(0, k));
        match classify(f, line) {
            LineKind::Blank => lemma_read_lines_stopped_prefix(f, None, rest, t),
            LineKind::Event(name) => lemma_read_lines_stopped_prefix(f, Some(name), rest, t),
            LineKind::Skip => lemma_read_lines_stopped_prefix(f, ev, rest, t),
            LineKind::Done => {},
            LineKind::Data(d) => lemma_read_lines_stopped_prefix(f, ev, rest, t),
        }
    }
}

proof fn lemma_encode_utf8_concat(x: Seq<char>, y: Seq<char>)
    ensures
        vstd::utf8::encode_utf8(x + y) == vstd::utf8::encode_utf8(x) + vstd::utf8::encode_utf8(y),
    decreases x.len(),
{
    if x.len() > 0 {
        lemma_encode_utf8_concat(x.drop_first(), y);
        assert((x + y).drop_first() =~= x.drop_first() + y);
        assert((x + y)[0] == x[0]);
        assert(vstd::utf8::encode_utf8(x + y) =~= vstd::utf8::encode_scalar(x[0] as u32)
            + vstd::utf8::encode_utf8(x.drop_first()) + vstd::utf8::encode_utf8(y));
    } else {
        assert(x + y =~= y);
        assert(vstd::utf8::encode_utf8(x) =~= Seq::<u8>::empty());
        assert(vstd::utf8::encode_utf8(x) + vstd::utf8::encode_utf8(y) =~= vstd::utf8::encode_utf8(y));
    }
}

/// Decoding valid UTF-8 pieces one by one gives the decoding of the whole.
proof fn lemma_decode_utf8_concat(a: Seq<u8>, b: Seq<u8>)
    requires
        vstd::utf8::valid_utf8(a),
        vstd::utf8::valid_utf8(b),
    ensures
        vstd::utf8::valid_utf8(a + b),
        vstd::utf8::decode_utf8(a + b) == vstd::utf8::decode_utf8(a) + vstd::utf8::decode_utf8(b),
{
    broadcast use vstd::utf8::encode_utf8_decode_utf8, vstd::utf8::decode_utf8_encode_utf8;

    vstd::utf8::valid_utf8_concat(a, b);
    let x = vstd::utf8::decode_utf8(a);
    let y = vstd::utf8::decode_utf8(b);
    lemma_encode_utf8_concat(x, y);
    assert(vstd::utf8::encode_utf8(x + y) == a + b);
}

/// The bytes of a sequence of network chunks, in order.
pub open spec fn flatten_bytes(chunks: Seq<Seq<u8>>) -> Seq<u8>
    decreases chunks.len(),
{
    if chunks.len() == 0 {
        Seq::empty()
    } else {
        flatten_bytes(chunks.drop_last()) + chunks.last()
    }
}

/// The decoder state and frames after feeding valid UTF-8 network chunks one
/// by one, starting from state `d` (what [`StreamDecoder::feed`] does to each).
pub open spec fn decoded_chunks(d: DecoderView, chunks: Seq<Seq<u8>>) -> (DecoderView, Seq<FrameView>)
    decreases chunks.len(),
{
    if chunks.len() == 0 {
        (d, Seq::empty())
    } else {
        let p = decoded_chunks(d, chunks.drop_last());
        let q = decoded(p.0, vstd::utf8::decode_utf8(chunks.last()));
        (q.0, p.1 + q.1)
    }
}

proof fn lemma_flatten_valid(chunks: Seq<Seq<u8>>)
    requires
        forall|i: int| 0 <= i < chunks.len() ==> vstd::utf8::valid_utf8(#[trigger] chunks[i]),
    ensures
        vstd::utf8::valid_utf8(flatten_bytes(chunks)),
    decreases chunks.len(),
{
    if chunks.len() > 0 {
        let init = chunks.drop_last();
        assert forall|i: int| 0 <= i < init.len() implies vstd::utf8::valid_utf8(#[trigger] init[i]) by {
            assert(init[i] == chunks[i]);
        }
        lemma_flatten_valid(init);
        assert(vstd::utf8::valid_utf8(chunks[chunks.len() - 1]));
        lemma_decode_utf8_concat(flatten_bytes(init), chunks.last());
    } else {
        assert(vstd::utf8::valid_utf8(Seq::<u8>::empty()));
    }
}

/// Where the network chunks of a stream end does not matter: feeding valid
/// UTF-8 chunks one by one yields the same frames, in the same order, and
/// leaves the decoder in the same state as feeding all their bytes as one
/// chunk, as long as no `[DONE]` marker ends the stream. For the formats
/// without a `[DONE]` marker this holds of every sequence of chunks.
pub proof fn law_byte_chunk_boundaries_do_not_matter(d: DecoderView, chunks: Seq<Seq<u8>>)
    requires
        !d.finished,
        chunks.len() > 0,
        forall|i: int| 0 <= i < chunks.len() ==> vstd::utf8::valid_utf8(#[trigger] chunks[i]),
        !stops_at_done(d.format) || !read_lines(
            d.format,
            d.event,
            d.buffer + vstd::utf8::decode_utf8(flatten_bytes(chunks)),
        ).stopped,
    ensures
        vstd::utf8::valid_utf8(flatten_bytes(chunks)),
        decoded_chunks(d, chunks) == decoded(d, vstd::utf8::decode_utf8(flatten_bytes(chunks))),
    decreases chunks.len(),
{
    lemma_flatten_valid(chunks);
    if chunks.len() == 1 {
        let p = decoded_chunks(d, chunks.drop_last());
        assert(chunks.drop_last().len() == 0);
        assert(flatten_bytes(chunks.drop_last()) == Seq::<u8>::empty());
        assert(flatten_bytes(chunks) =~= chunks.last());
        let q = decoded(d, vstd::utf8::decode_utf8(chunks.last()));
        assert(p.1 + q.1 =~= q.1);
    } else {
        let init = chunks.drop_last();
        let last = chunks.last();
        assert forall|i: int| 0 <= i < init.len() implies vstd::utf8::valid_utf8(#[trigger] init[i]) by {
            assert(init[i] == chunks[i]);
        }
        assert(vstd::utf8::valid_utf8(chunks[chunks.len() - 1]));
        lemma_flatten_valid(init);
        lemma_decode_utf8_concat(flatten_bytes(init), last);
        let a = vstd::utf8::decode_utf8(flatten_bytes(init));
        let b = vstd::utf8::decode_utf8(last);
        assert(d.buffer + (a + b) =~= (d.buffer + a) + b);
        if stops_at_done(d.format) {
            if read_lines(d.format, d.event, d.buffer + a).stopped {
                lemma_read_lines_stopped_prefix(d.format, d.event, d.buffer + a, b);
            }
        } else {
            lemma_read_lines_never_stops(d.format, d.event, d.buffer + a);
            lemma_read_lines_never_stops(d.format, d.event, d.buffer + (a + b));
        }
        law_byte_chunk_boundaries_do_not_matter(d, init);
        law_chunk_boundaries_do_not_matter(d, a, b);
    }
}

/// Where a network chunk ends does not matter: reading text `a` and then
/// text `b` yields the same frames, in the same order, and leaves the
/// decoder in the same state as reading `a + b` at once, as long as no
/// `[DONE]` marker stopped the reading of `a`. For the formats without a
/// `[DONE]` marker this holds of every split.
pub proof fn law_chunk_boundaries_do_not_matter(d: DecoderView, a: Seq<char>, b: Seq<char>)
    requires
        !d.finished,
        !stops_at_done(d.format) || !read_lines(d.format, d.event, d.buffer + a).stopped,
    ensures
        decoded(decoded(d, a).0, b).0 == decoded(d, a + b).0,
        decoded(d, a).1 + decoded(decoded(d, a).0, b).1 == decoded(d, a + b).1,
{
    if !stops_at_done(d.format) {
        lemma_read_lines_never_stops(d.format, d.event, d.buffer + a);
    }
    lemma_read_lines_append(d.format, d.event, d.buffer + a, b);
    assert(d.buffer + a + b =~= d.buffer + (a + b));
}

/// Reading stops at a `[DONE]` marker: in every format that has one, the
/// text after the marker's line is left unread and yields no frame.
pub proof fn law_done_stops_reading(f: StreamFormat, ev: Option<Seq<char>>, before: Seq<char>, after: Seq<char>)
    requires
        stops_at_done(f),
        !read_lines(f, ev, before).stopped,
        read_lines(f, ev, before).rest.len() == 0,
    ensures
        ({
            let marker = data_prefix() + done_marker() + seq!['\n'];
            let r = read_lines(f, ev, before + marker + after);
            &&& r.stopped
            &&& r.frames == read_lines(f, ev, before).frames
            &&& r.rest == after
        }),
{
    let marker = data_prefix() + done_marker() + seq!['\n'];
    let r0 = read_lines(f, ev, before);
    lemma_read_lines_append(f, ev, before, marker + after);
    assert(before + (marker + after) =~= before + marker + after);
    assert(r0.rest + (marker + after) =~= marker + after);
    let s = marker + after;
    lemma_line_end(s, 11);
    let line = s.subrange(0, 11);
    assert(line =~= data_prefix() + done_marker());
    assert(trim_start(line) == line);
    assert(trim_end(line) == line);
    assert(trim(line) == line);
    assert(line[0] != event_prefix()[0]);
    assert(!event_prefix().is_prefix_of(line));
    assert(data_prefix().is_prefix_of(line)) by {
        assert(line.subrange(0, 5) =~= data_prefix());
    }
    let d = line.subrange(5, 11);
    assert(d =~= done_marker());
    assert(trim_start(d) == d);
    assert(trim_end(d) == d);
    assert(classify(f, line) == LineKind::Done);
    assert(s.subrange(12, s.len() as int) =~= after);
    let r1 = read_lines(f, ev, s);
    assert(r1.stopped && r1.frames.len() == 0 && r1.rest == after);
    assert(r0.frames + r1.frames =~= r0.frames);
}
/// A decoder that has met the end of an agent event stream stays there:
/// whatever text comes later is not read, yields no frame and leaves the
/// state unchanged.
pub proof fn law_finished_stream_stays_finished(d: DecoderView, text: Seq<char>)
    requires
        d.finished,
    ensures
        decoded(d, text).0 == d,
        decoded(d, text).1.len() == 0,
{
}

/// In the OpenAI-compatible and agent event formats a `[DONE]` marker ends
/// the stream for good: after a chunk whose reading met the marker the
/// decoder is finished (and then reads nothing more, see
/// [`law_finished_stream_stays_finished`]). In the other formats the decoder
/// never finishes: where the marker exists it only ends the reading of the
/// current chunk.
pub proof fn law_done_ends_the_stream(d: DecoderView, text: Seq<char>)
    requires
        !d.finished,
    ensures
        finishes_at_done(d.format) ==> decoded(d, text).0.finished == read_lines(
            d.format,
            d.event,
            d.buffer + text,
        ).stopped,
        !finishes_at_done(d.format) ==> !decoded(d, text).0.finished,
        decoded(d, text).0.format == d.format,
{
}

} // verus!
