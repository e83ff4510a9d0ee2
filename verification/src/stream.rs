//! The streaming chat client's parser: a text buffer that is cut into frames
//! at blank lines, each frame giving a token, the end of the stream, or
//! nothing.

use crate::app::stream_events_view;
use crate::json::{delta_content, json_parsed, parse, spec_delta_content};
use crate::models::{StreamEvent, StreamEventView};
use crate::text::{
    chars_of, concat, find, is_first_occurrence, lemma_find_is_first, occurs_at, slice_of,
    spec_find, spec_strip_prefix, spec_trim, string_of, strip_prefix, text_is, trim,
};
use vstd::prelude::*;

verus! {

/// The size of the chunks in which a streamed response is read.
pub const STREAM_CHUNK_BYTES: usize = 8192;

/// The blank line that ends a frame: two line feeds.
pub open spec fn frame_delimiter() -> Seq<char> {
    seq!['\n', '\n']
}

/// The payload of a frame: the frame without the whitespace around it and
/// without the field name `data:`, where it has one.
pub open spec fn frame_payload(frame: Seq<char>) -> Seq<char> {
    let line = spec_trim(frame);
    match spec_strip_prefix(line, "data:"@) {
        Some(rest) => spec_trim(rest),
        None => line,
    }
}

/// What a frame amounts to.
#[derive(Debug, PartialEq, Eq)]
pub enum FrameOutcome {
    /// The terminal signal.
    Done,
    /// An incremental content fragment.
    Token(String),
    /// Nothing: the payload is no JSON document, or one without a fragment.
    Skipped,
}

/// `FrameOutcome` with its text as a sequence of characters.
pub enum FrameOutcomeView {
    Done,
    Token(Seq<char>),
    Skipped,
}

impl View for FrameOutcome {
    type V = FrameOutcomeView;

    open spec fn view(&self) -> FrameOutcomeView {
        match self {
            FrameOutcome::Done => FrameOutcomeView::Done,
            FrameOutcome::Token(t) => FrameOutcomeView::Token(t@),
            FrameOutcome::Skipped => FrameOutcomeView::Skipped,
        }
    }
}

/// What a payload that is not the terminal signal amounts to, from what the
/// JSON parser made of it: a token where the document has a content
/// fragment, else nothing.
pub open spec fn spec_document_outcome(doc: Option<serde_json::Value>) -> FrameOutcomeView {
    match doc {
        Some(d) => match spec_delta_content(d) {
            Some(t) => FrameOutcomeView::Token(t),
            None => FrameOutcomeView::Skipped,
        },
        None => FrameOutcomeView::Skipped,
    }
}

/// What a frame amounts to: the end of the stream where its payload is the
/// literal `[DONE]`, else what its payload holds as a JSON document.
pub open spec fn spec_frame_outcome(frame: Seq<char>) -> FrameOutcomeView {
    let payload = frame_payload(frame);
    if payload == "[DONE]"@ {
        FrameOutcomeView::Done
    } else {
        spec_document_outcome(json_parsed(payload))
    }
}

/// What a payload that is not the terminal signal amounts to, from what the
/// JSON parser made of it.
pub fn document_outcome(doc: Option<serde_json::Value>) -> (outcome: FrameOutcome)
    ensures
        outcome@ == spec_document_outcome(doc),
{
    match doc {
        Some(d) => match delta_content(&d) {
            Some(t) => FrameOutcome::Token(t),
            None => FrameOutcome::Skipped,
        },
        None => FrameOutcome::Skipped,
    }
}

/// The payload of a frame.
pub fn payload_of(frame: &Vec<char>) -> (payload: Vec<char>)
    ensures
        payload@ == frame_payload(frame@),
{
    let line = trim(frame);
    match strip_prefix(&line, &chars_of("data:")) {
        Some(rest) => trim(&rest),
        None => line,
    }
}

/// What a frame amounts to.
pub fn frame_outcome(frame: &Vec<char>) -> (outcome: FrameOutcome)
    ensures
        outcome@ == spec_frame_outcome(frame@),
{
    let payload = payload_of(frame);
    let text = string_of(&payload);
    if text_is(&text, "[DONE]") {
        FrameOutcome::Done
    } else {
        document_outcome(parse(text.as_str()))
    }
}

/// What scanning a buffer yields: the events of its complete frames, what
/// is left of it, and whether the terminal signal was met.
pub struct Scan {
    pub events: Seq<StreamEventView>,
    pub rest: Seq<char>,
    pub done: bool,
}

/// Scans `buf` frame by frame. Each frame ends at the first blank line; a
/// frame with a fragment gives a token, a frame that says nothing is passed
/// over, and the terminal signal gives `Done` and ends the scan, whatever
/// follows it. Else what follows the last blank line stays for the next
/// chunk.
pub open spec fn spec_scan(buf: Seq<char>) -> Scan
    decreases buf.len(),
{
    match spec_find(buf, frame_delimiter()) {
        Some(i) => {
            if 0 <= i && i + 2 <= buf.len() {
                let frame = buf.subrange(0, i);
                let rest = buf.subrange(i + 2, buf.len() as int);
                match spec_frame_outcome(frame) {
                    FrameOutcomeView::Done => Scan {
                        events: seq![StreamEventView::Done],
                        rest: Seq::empty(),
                        done: true,
                    },
                    FrameOutcomeView::Token(t) => {
                        let after = spec_scan(rest);
                        Scan { events: seq![StreamEventView::Token(t)] + after.events, ..after }
                    },
                    FrameOutcomeView::Skipped => spec_scan(rest),
                }
            } else {
                Scan { events: Seq::empty(), rest: buf, done: false }
            }
        },
        None => Scan { events: Seq::empty(), rest: buf, done: false },
    }
}

/// One chat request's parser: the text that has arrived and is not yet a
/// complete frame, and whether the stream has ended.
#[derive(Debug)]
pub struct StreamSession {
    buf: Vec<char>,
    finished: bool,
}

/// A session as mathematics.
pub struct StreamSessionView {
    pub buf: Seq<char>,
    pub finished: bool,
}

impl View for StreamSession {
    type V = StreamSessionView;

    closed spec fn view(&self) -> StreamSessionView {
        StreamSessionView { buf: self.buf@, finished: self.finished }
    }
}

/// What a chunk of text does to a session and which events it gives: the
/// chunk is appended to the buffer and the buffer is scanned. A session
/// that has ended takes no more text.
pub open spec fn spec_feed(session: StreamSessionView, chunk: Seq<char>) -> (
    StreamSessionView,
    Seq<StreamEventView>,
) {
    if session.finished {
        (session, Seq::empty())
    } else {
        let scan = spec_scan(session.buf + chunk);
        (StreamSessionView { buf: scan.rest, finished: scan.done }, scan.events)
    }
}

impl StreamSession {
    /// A session at its start: nothing has arrived.
    pub fn new() -> (session: Self)
        ensures
            session@ == (StreamSessionView { buf: Seq::empty(), finished: false }),
    {
        StreamSession { buf: Vec::new(), finished: false }
    }

    /// Whether the stream has ended.
    pub fn is_finished(&self) -> (b: bool)
        ensures
            b == self@.finished,
    {
        self.finished
    }

    /// Takes a chunk of text and gives the events of the frames that it
    /// completes, in order.
    pub fn feed(&mut self, chunk: &str) -> (events: Vec<StreamEvent>)
        ensures
            final(self)@ == spec_feed(old(self)@, chunk@).0,
            stream_events_view(events@) == spec_feed(old(self)@, chunk@).1,
    {
        let mut events: Vec<StreamEvent> = Vec::new();
        if self.finished {
            assert(stream_events_view(events@) =~= Seq::<StreamEventView>::empty());
            return events;
        }
        let mut more = chars_of(chunk);
        self.buf.append(&mut more);
        let mut delimiter: Vec<char> = Vec::new();
        delimiter.push('\n');
        delimiter.push('\n');
        assert(delimiter@ =~= frame_delimiter());
        let ghost start = self.buf@;
        assert(stream_events_view(events@) =~= Seq::<StreamEventView>::empty());
        loop
            invariant_except_break
                !self.finished,
                spec_scan(start).events == stream_events_view(events@) + spec_scan(
                    self.buf@,
                ).events,
                spec_scan(start).rest == spec_scan(self.buf@).rest,
                spec_scan(start).done == spec_scan(self.buf@).done,
            invariant
                delimiter@ == frame_delimiter(),
            ensures
                self.finished == spec_scan(start).done,
                self.buf@ == spec_scan(start).rest,
                stream_events_view(events@) == spec_scan(start).events,
            decreases self.buf.len(),
        {
            let ghost before = self.buf@;
            let ghost sent = stream_events_view(events@);
            match find(&self.buf, &delimiter) {
                None => {
                    assert(spec_scan(before).events =~= Seq::<StreamEventView>::empty());
                    assert(sent + Seq::<StreamEventView>::empty() =~= sent);
                    break;
                },
                Some(i) => {
                    proof {
                        lemma_find_is_first(before, frame_delimiter(), i as int);
                    }
                    let frame = slice_of(&self.buf, 0, i);
                    let rest = slice_of(&self.buf, i + 2, self.buf.len());
                    self.buf = rest;
                    match frame_outcome(&frame) {
                        FrameOutcome::Done => {
                            events.push(StreamEvent::Done);
                            self.finished = true;
                            self.buf = Vec::new();
                            assert(stream_events_view(events@) =~= sent
                                + seq![StreamEventView::Done]);
                            break;
                        },
                        FrameOutcome::Token(t) => {
                            events.push(StreamEvent::Token(t));
                            assert(stream_events_view(events@) =~= sent
                                + seq![StreamEventView::Token(t@)]);
                            assert((sent + seq![StreamEventView::Token(t@)]) + spec_scan(
                                self.buf@,
                            ).events =~= sent + (seq![StreamEventView::Token(t@)] + spec_scan(
                                self.buf@,
                            ).events));
                        },
                        FrameOutcome::Skipped => {},
                    }
                },
            }
        }
        events
    }

    /// Takes a chunk of bytes as it was read from the response: the bytes
    /// are read as text, with a replacement character for what is no valid
    /// text, and fed in.
    pub fn feed_bytes(&mut self, chunk: &[u8]) -> (events: Vec<StreamEvent>)
        ensures
            final(self)@ == spec_feed(old(self)@, utf8_lossy(chunk@)).0,
            stream_events_view(events@) == spec_feed(
                old(self)@,
                utf8_lossy(chunk@),
            ).1,
    {
        let text = decode_lossy(chunk);
        self.feed(text.as_str())
    }

    /// The response has come to its end: a session that has not ended yet
    /// ends now, with `Done`.
    pub fn end_of_stream(&mut self) -> (events: Vec<StreamEvent>)
        ensures
            final(self)@ == (StreamSessionView { finished: true, ..old(self)@ }),
            stream_events_view(events@) == spec_closing_events(
                old(self)@.finished,
                None,
            ),
    {
        let mut events: Vec<StreamEvent> = Vec::new();
        if !self.finished {
            events.push(StreamEvent::Done);
            self.finished = true;
        }
        assert(stream_events_view(events@) =~= spec_closing_events(
            old(self)@.finished,
            None,
        ));
        events
    }

    /// Reading the response has failed with the message `err`: a session
    /// that has not ended yet ends now, with the error and then `Done`.
    pub fn read_failed(&mut self, err: &str) -> (events: Vec<StreamEvent>)
        ensures
            final(self)@ == (StreamSessionView { finished: true, ..old(self)@ }),
            stream_events_view(events@) == spec_closing_events(
                old(self)@.finished,
                Some("read failed: "@ + err@),
            ),
    {
        let mut events: Vec<StreamEvent> = Vec::new();
        if !self.finished {
            events.push(StreamEvent::Error(concat("read failed: ", err)));
            events.push(StreamEvent::Done);
            self.finished = true;
        }
        assert(stream_events_view(events@) =~= spec_closing_events(
            old(self)@.finished,
            Some("read failed: "@ + err@),
        ));
        events
    }
}

/// The events that close a stream: the error, where there is one, and then
/// `Done`; none where the stream had ended before.
pub open spec fn spec_closing_events(finished: bool, error: Option<Seq<char>>) -> Seq<
    StreamEventView,
> {
    if finished {
        Seq::empty()
    } else {
        match error {
            Some(e) => seq![StreamEventView::Error(e), StreamEventView::Done],
            None => seq![StreamEventView::Done],
        }
    }
}

/// The events of a chat request that could not be sent, with the message
/// `err`: the error and then `Done`.
pub fn request_failed(err: &str) -> (events: Vec<StreamEvent>)
    ensures
        stream_events_view(events@) == spec_closing_events(
            false,
            Some("request failed: "@ + err@),
        ),
{
    let mut events: Vec<StreamEvent> = Vec::new();
    events.push(StreamEvent::Error(concat("request failed: ", err)));
    events.push(StreamEvent::Done);
    assert(stream_events_view(events@) =~= spec_closing_events(
        false,
        Some("request failed: "@ + err@),
    ));
    events
}

/// Names the text that `String::from_utf8_lossy` reads from bytes: the bytes
/// as UTF-8, with a replacement character for each part that is none.
pub uninterp spec fn utf8_lossy(bytes: Seq<u8>) -> Seq<char>;

/// `String::from_utf8_lossy`: the text that `utf8_lossy` names.
#[verifier::external_body]
pub(crate) fn decode_lossy(bytes: &[u8]) -> (text: String)
    ensures
        text@ == utf8_lossy(bytes@),
{
    String::from_utf8_lossy(bytes).into_owned()
}

/// The address of the chat endpoint of the server at `server_url`.
pub fn chat_url(server_url: &str) -> (url: String)
    ensures
        url@ == server_url@ + "/v1/chat/completions"@,
{
    concat(server_url, "/v1/chat/completions")
}

/// Tokens come before the end: of the events of a scan only the last can be
/// `Done`, it is `Done` just when the terminal signal was met, and none is an
/// error.
pub proof fn lemma_scan_order(buf: Seq<char>)
    ensures
        forall|i: int|
            0 <= i < spec_scan(buf).events.len() ==> !((#[trigger] spec_scan(buf).events[i]) is Error),
        forall|i: int|
            0 <= i < spec_scan(buf).events.len() ==> ((#[trigger] spec_scan(buf).events[i]) is Done
                <==> spec_scan(buf).done && i == spec_scan(buf).events.len() - 1),
        spec_scan(buf).done ==> spec_scan(buf).events.len() > 0,
    decreases buf.len(),
{
    match spec_find(buf, frame_delimiter()) {
        Some(i) => {
            if 0 <= i && i + 2 <= buf.len() {
                let rest = buf.subrange(i + 2, buf.len() as int);
                lemma_scan_order(rest);
                match spec_frame_outcome(buf.subrange(0, i)) {
                    FrameOutcomeView::Token(t) => {
                        let after = spec_scan(rest);
                        let all = seq![StreamEventView::Token(t)] + after.events;
                        assert(spec_scan(buf).events == all);
                        assert forall|k: int| 0 <= k < all.len() implies !((#[trigger] all[k]) is Error)
                            && (all[k] is Done <==> after.done && k == all.len() - 1) by {
                            if k > 0 {
                                assert(all[k] == after.events[k - 1]);
                            }
                        }
                    },
                    _ => {},
                }
            }
        },
        None => {},
    }
}

/// A blank line that is the first in a text is the first in any text that
/// begins with it.
proof fn lemma_first_delimiter_stays(buf: Seq<char>, more: Seq<char>, i: int)
    requires
        spec_find(buf, frame_delimiter()) == Some(i),
    ensures
        0 <= i && i + 2 <= buf.len(),
        spec_find(buf + more, frame_delimiter()) == Some(i),
        (buf + more).subrange(0, i) == buf.subrange(0, i),
        (buf + more).subrange(i + 2, (buf + more).len() as int) == buf.subrange(
            i + 2,
            buf.len() as int,
        ) + more,
{
    let d = frame_delimiter();
    let w = choose|w: int| occurs_at(buf, d, w);
    lemma_first_exists(buf, d, w);
    assert(is_first_occurrence(buf, d, i));
    let all = buf + more;
    assert(all.subrange(i, i + 2) =~= buf.subrange(i, i + 2));
    assert(d.len() == 2);
    assert forall|j: int| 0 <= j < i implies !occurs_at(all, d, j) by {
        assert(!occurs_at(buf, d, j));
        assert(all.subrange(j, j + 2) =~= buf.subrange(j, j + 2));
    }
    lemma_find_is_first(all, d, i);
    assert(all.subrange(0, i) =~= buf.subrange(0, i));
    assert(all.subrange(i + 2, all.len() as int) =~= buf.subrange(i + 2, buf.len() as int) + more);
}

/// Where a text stands in another, it stands there for a first time.
proof fn lemma_first_exists(s: Seq<char>, pat: Seq<char>, w: int)
    requires
        occurs_at(s, pat, w),
    ensures
        exists|i: int| is_first_occurrence(s, pat, i),
    decreases w,
{
    if exists|j: int| 0 <= j < w && occurs_at(s, pat, j) {
        let j = choose|j: int| 0 <= j < w && occurs_at(s, pat, j);
        lemma_first_exists(s, pat, j);
    } else {
        assert(is_first_occurrence(s, pat, w));
    }
}

/// Scanning a text that has grown gives what scanning it before gave, and
/// then what scanning the new text behind the rest gives. Once the terminal
/// signal was met, nothing more is given.
pub proof fn lemma_scan_append(buf: Seq<char>, more: Seq<char>)
    ensures
        spec_scan(buf).done ==> spec_scan(buf + more) == spec_scan(buf),
        !spec_scan(buf).done ==> spec_scan(buf + more) == (Scan {
            events: spec_scan(buf).events + spec_scan(spec_scan(buf).rest + more).events,
            ..spec_scan(spec_scan(buf).rest + more)
        }),
    decreases buf.len(),
{
    match spec_find(buf, frame_delimiter()) {
        Some(i) => {
            lemma_first_delimiter_stays(buf, more, i);
            let rest = buf.subrange(i + 2, buf.len() as int);
            lemma_scan_append(rest, more);
            match spec_frame_outcome(buf.subrange(0, i)) {
                FrameOutcomeView::Token(t) => {
                    let head = seq![StreamEventView::Token(t)];
                    if !spec_scan(rest).done {
                        let tail = spec_scan(spec_scan(rest).rest + more);
                        assert(head + (spec_scan(rest).events + tail.events) =~= (head + spec_scan(
                            rest,
                        ).events) + tail.events);
                    }
                },
                _ => {},
            }
        },
        None => {
            let tail = spec_scan(buf + more);
            assert(Seq::<StreamEventView>::empty() + tail.events =~= tail.events);
        },
    }
}

/// The events of a stream do not depend on how its text is cut into chunks:
/// feeding two chunks one after the other gives the events, and leaves the
/// session, that feeding them as one gives.
pub proof fn lemma_feed_split(session: StreamSessionView, a: Seq<char>, b: Seq<char>)
    ensures
        spec_feed(spec_feed(session, a).0, b).0 == spec_feed(session, a + b).0,
        spec_feed(session, a).1 + spec_feed(spec_feed(session, a).0, b).1 == spec_feed(
            session,
            a + b,
        ).1,
{
    if !session.finished {
        lemma_scan_append(session.buf + a, b);
        assert((session.buf + a) + b =~= session.buf + (a + b));
        let first = spec_scan(session.buf + a);
        if first.done {
            assert(first.events + Seq::<StreamEventView>::empty() =~= first.events);
        }
    } else {
        assert(Seq::<StreamEventView>::empty() + Seq::<StreamEventView>::empty() =~= Seq::<
            StreamEventView,
        >::empty());
    }
}

} // verus!
