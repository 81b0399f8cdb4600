//! The stream demultiplexer: a byte stream of a child process cut into log
//! lines (ended by `'\n'`) and progress updates (ended by `'\r'`).
//!
//! Bytes are buffered until a line is delimited and only then decoded, so a
//! multi-byte character split over two reads is never torn.

use crate::sanitize::{sanitize_chars, sanitized};
use crate::text::{blank_chars, from_chars, is_blank, push_str, to_chars};
use vstd::prelude::*;

verus! {

/// The text that `String::from_utf8_lossy` gives for a byte sequence.
pub uninterp spec fn lossy_text(bytes: Seq<u8>) -> Seq<char>;

/// `String::from_utf8_lossy`: the bytes decoded as UTF-8, every invalid
/// sequence replaced by U+FFFD. The result is a function of the bytes alone.
#[verifier::external_body]
fn decode_lossy(bytes: &[u8]) -> (s: String)
    ensures
        s@ == lossy_text(bytes@),
{
    String::from_utf8_lossy(bytes).into_owned()
}

/// Which stream of the child a line came from.
#[derive(Debug, Clone, Copy, PartialEq, Eq, Structural)]
pub enum StreamSource {
    Stdout,
    Stderr,
}

/// What ended a line.
#[derive(Debug, Clone, Copy, PartialEq, Eq, Structural)]
pub enum Terminator {
    /// `'\n'`: a log line.
    Newline,
    /// `'\r'`: a progress update, meant to overwrite the one before.
    Return,
    /// The end of the stream: what is left counts as a log line.
    End,
}

/// One discrete piece of output.
#[derive(Debug, Clone)]
pub enum OutputEvent {
    LogLine { text: String, source: StreamSource },
    ProgressLine { text: String },
}

/// The mathematical content of an [`OutputEvent`].
pub enum EventView {
    LogLine { text: Seq<char>, source: StreamSource },
    ProgressLine { text: Seq<char> },
}

impl View for OutputEvent {
    type V = EventView;

    open spec fn view(&self) -> EventView {
        match self {
            OutputEvent::LogLine { text, source } => EventView::LogLine {
                text: text@,
                source: *source,
            },
            OutputEvent::ProgressLine { text } => EventView::ProgressLine { text: text@ },
        }
    }
}

/// The views of a vector of events.
pub open spec fn views(v: Seq<OutputEvent>) -> Seq<EventView> {
    Seq::new(v.len(), |i: int| v[i]@)
}

pub const NEWLINE: u8 = 10;

pub const RETURN: u8 = 13;

// ---------------------------------------------------------------------------
// What a delimited line becomes
// ---------------------------------------------------------------------------

/// The event for a decoded line: none when its sanitized form is blank, a
/// progress update after `'\r'`, a log line otherwise.
pub open spec fn event_of(text: Seq<char>, end: Terminator, source: StreamSource) -> Option<
    EventView,
> {
    let clean = sanitized(text);
    if is_blank(clean) {
        None
    } else if end == Terminator::Return {
        Some(EventView::ProgressLine { text: clean })
    } else {
        Some(EventView::LogLine { text: clean, source })
    }
}

/// Turns one decoded line into its event.
pub fn line_event(text: &str, end: Terminator, source: StreamSource) -> (ev: Option<OutputEvent>)
    ensures
        match ev {
            Some(e) => event_of(text@, end, source) == Some(e@),
            None => event_of(text@, end, source) is None,
        },
{
    let chars = to_chars(text);
    let clean = sanitize_chars(chars.as_slice());
    if blank_chars(clean.as_slice()) {
        None
    } else {
        let text = from_chars(clean.as_slice());
        match end {
            Terminator::Return => Some(OutputEvent::ProgressLine { text }),
            _ => Some(OutputEvent::LogLine { text, source }),
        }
    }
}

// ---------------------------------------------------------------------------
// The model: one byte at a time
// ---------------------------------------------------------------------------

/// What byte `b` does to the buffered bytes `buf`: the buffer after it and
/// the event it completes, if any.
pub open spec fn feed_step(buf: Seq<u8>, b: u8, source: StreamSource) -> (Seq<u8>, Option<
    EventView,
>) {
    if b == NEWLINE {
        (Seq::empty(), event_of(lossy_text(buf), Terminator::Newline, source))
    } else if b == RETURN {
        (Seq::empty(), event_of(lossy_text(buf), Terminator::Return, source))
    } else {
        (buf.push(b), None)
    }
}

/// The buffer after `bytes` were fed to a demultiplexer that held `buf`.
pub open spec fn feed_buffer(buf: Seq<u8>, bytes: Seq<u8>, source: StreamSource) -> Seq<u8>
    decreases bytes.len(),
{
    if bytes.len() == 0 {
        buf
    } else {
        feed_step(feed_buffer(buf, bytes.drop_last(), source), bytes.last(), source).0
    }
}

/// The events that feeding `bytes` to a demultiplexer holding `buf` emits.
pub open spec fn feed_events(buf: Seq<u8>, bytes: Seq<u8>, source: StreamSource) -> Seq<EventView>
    decreases bytes.len(),
{
    if bytes.len() == 0 {
        Seq::empty()
    } else {
        let before = feed_events(buf, bytes.drop_last(), source);
        match feed_step(feed_buffer(buf, bytes.drop_last(), source), bytes.last(), source).1 {
            Some(e) => before.push(e),
            None => before,
        }
    }
}

/// The events that the end of the stream emits for the bytes left over.
pub open spec fn finish_events(buf: Seq<u8>, source: StreamSource) -> Seq<EventView> {
    if buf.len() == 0 {
        Seq::empty()
    } else {
        match event_of(lossy_text(buf), Terminator::End, source) {
            Some(e) => seq![e],
            None => Seq::empty(),
        }
    }
}

/// The text a stream has accumulated: every log line followed by `'\n'`;
/// progress updates leave no trace.
pub open spec fn captured_text(events: Seq<EventView>) -> Seq<char>
    decreases events.len(),
{
    if events.len() == 0 {
        Seq::empty()
    } else {
        let before = captured_text(events.drop_last());
        match events.last() {
            EventView::LogLine { text, .. } => before + text + "\n"@,
            EventView::ProgressLine { .. } => before,
        }
    }
}

/// All chunks one after the other.
pub open spec fn concat_all(chunks: Seq<Seq<u8>>) -> Seq<u8>
    decreases chunks.len(),
{
    if chunks.len() == 0 {
        Seq::empty()
    } else {
        concat_all(chunks.drop_last()) + chunks.last()
    }
}

/// The buffer after the chunks were fed one by one.
pub open spec fn chunked_buffer(buf: Seq<u8>, chunks: Seq<Seq<u8>>, source: StreamSource) -> Seq<
    u8,
>
    decreases chunks.len(),
{
    if chunks.len() == 0 {
        buf
    } else {
        feed_buffer(chunked_buffer(buf, chunks.drop_last(), source), chunks.last(), source)
    }
}

/// The events emitted while the chunks were fed one by one.
pub open spec fn chunked_events(buf: Seq<u8>, chunks: Seq<Seq<u8>>, source: StreamSource) -> Seq<
    EventView,
>
    decreases chunks.len(),
{
    if chunks.len() == 0 {
        Seq::empty()
    } else {
        chunked_events(buf, chunks.drop_last(), source) + feed_events(
            chunked_buffer(buf, chunks.drop_last(), source),
            chunks.last(),
            source,
        )
    }
}

// ---------------------------------------------------------------------------
// Laws
// ---------------------------------------------------------------------------

/// Feeding `a` and then `b` is feeding `a + b`: the same events in the same
/// order, and the same bytes left in the buffer.
pub proof fn lemma_feed_split(buf: Seq<u8>, a: Seq<u8>, b: Seq<u8>, source: StreamSource)
    ensures
        feed_buffer(buf, a + b, source) == feed_buffer(feed_buffer(buf, a, source), b, source),
        feed_events(buf, a + b, source) == feed_events(buf, a, source) + feed_events(
            feed_buffer(buf, a, source),
            b,
            source,
        ),
    decreases b.len(),
{
    if b.len() == 0 {
        assert(a + b =~= a);
        assert(feed_events(buf, a, source) + Seq::<EventView>::empty() =~= feed_events(
            buf,
            a,
            source,
        ));
    } else {
        lemma_feed_split(buf, a, b.drop_last(), source);
        assert((a + b).drop_last() =~= a + b.drop_last());
        assert((a + b).last() == b.last());
        let mid = feed_buffer(buf, a, source);
        let before = feed_events(mid, b.drop_last(), source);
        match feed_step(feed_buffer(mid, b.drop_last(), source), b.last(), source).1 {
            Some(e) => {
                assert((feed_events(buf, a, source) + before).push(e) =~= feed_events(
                    buf,
                    a,
                    source,
                ) + before.push(e));
            },
            None => {},
        }
    }
}

/// However a byte stream is cut into chunks, down to single bytes and through
/// the middle of a multi-byte character, feeding the chunks one by one emits
/// the events of feeding it in one piece, in the same order, and leaves the
/// same bytes buffered.
pub proof fn lemma_chunking_invariance(buf: Seq<u8>, chunks: Seq<Seq<u8>>, source: StreamSource)
    ensures
        chunked_events(buf, chunks, source) == feed_events(buf, concat_all(chunks), source),
        chunked_buffer(buf, chunks, source) == feed_buffer(buf, concat_all(chunks), source),
    decreases chunks.len(),
{
    if chunks.len() > 0 {
        lemma_chunking_invariance(buf, chunks.drop_last(), source);
        lemma_feed_split(buf, concat_all(chunks.drop_last()), chunks.last(), source);
    }
}

/// The text accumulated over two runs of events is the two texts in a row.
pub proof fn lemma_captured_concat(a: Seq<EventView>, b: Seq<EventView>)
    ensures
        captured_text(a + b) == captured_text(a) + captured_text(b),
    decreases b.len(),
{
    if b.len() == 0 {
        assert(a + b =~= a);
        assert(captured_text(a) + Seq::<char>::empty() =~= captured_text(a));
    } else {
        lemma_captured_concat(a, b.drop_last());
        assert((a + b).drop_last() =~= a + b.drop_last());
        assert((a + b).last() == b.last());
        match b.last() {
            EventView::LogLine { text, .. } => {
                assert(captured_text(a) + captured_text(b.drop_last()) + text + "\n"@
                    =~= captured_text(a) + (captured_text(b.drop_last()) + text + "\n"@));
            },
            EventView::ProgressLine { .. } => {},
        }
    }
}

// ---------------------------------------------------------------------------
// The demultiplexer
// ---------------------------------------------------------------------------

/// The demultiplexer of one stream.
pub struct StreamDemux {
    /// The bytes of the line that is not delimited yet.
    pub buffer: Vec<u8>,
    /// The stream this instance reads.
    pub source: StreamSource,
    /// The log lines seen so far, each followed by `'\n'`.
    pub captured: String,
}

impl StreamDemux {
    pub fn new(source: StreamSource) -> (d: StreamDemux)
        ensures
            d.buffer@ == Seq::<u8>::empty(),
            d.source == source,
            d.captured@ == Seq::<char>::empty(),
    {
        StreamDemux { buffer: Vec::new(), source, captured: String::new() }
    }

    fn emit(&mut self, end: Terminator, out: &mut Vec<OutputEvent>)
        ensures
            final(self).buffer@ == Seq::<u8>::empty(),
            final(self).source == old(self).source,
            match event_of(lossy_text(old(self).buffer@), end, old(self).source) {
                Some(e) => {
                    &&& views(final(out)@) == views(old(out)@).push(e)
                    &&& final(self).captured@ == old(self).captured@ + captured_text(seq![e])
                },
                None => {
                    &&& views(final(out)@) == views(old(out)@)
                    &&& final(self).captured@ == old(self).captured@
                },
            },
    {
        let text = decode_lossy(self.buffer.as_slice());
        self.buffer = Vec::new();
        match line_event(text.as_str(), end, self.source) {
            Some(ev) => {
                proof {
                    assert(views(out@.push(ev)) =~= views(out@).push(ev@));
                    assert(seq![ev@].drop_last() =~= Seq::<EventView>::empty());
                    assert(captured_text(seq![ev@].drop_last()) =~= Seq::<char>::empty());
                }
                match &ev {
                    OutputEvent::LogLine { text, .. } => {
                        let mut c = to_chars(self.captured.as_str());
                        push_str(&mut c, text.as_str());
                        push_str(&mut c, "\n");
                        self.captured = from_chars(c.as_slice());
                        assert(self.captured@ =~= old(self).captured@ + (Seq::<char>::empty()
                            + text@ + "\n"@));
                    },
                    OutputEvent::ProgressLine { .. } => {
                        assert(self.captured@ =~= old(self).captured@ + Seq::<char>::empty());
                    },
                }
                out.push(ev);
            },
            None => {},
        }
    }

    /// Takes the next bytes of the stream and returns the events they
    /// complete, in order.
    pub fn feed(&mut self, bytes: &[u8]) -> (out: Vec<OutputEvent>)
        ensures
            views(out@) == feed_events(old(self).buffer@, bytes@, old(self).source),
            final(self).buffer@ == feed_buffer(old(self).buffer@, bytes@, old(self).source),
            final(self).source == old(self).source,
            final(self).captured@ == old(self).captured@ + captured_text(views(out@)),
    {
        let mut out: Vec<OutputEvent> = Vec::new();
        let mut i: usize = 0;
        let ghost buf0 = self.buffer@;
        let ghost src = self.source;
        proof {
            assert(views(out@) =~= Seq::<EventView>::empty());
            assert(bytes@.take(0) =~= Seq::<u8>::empty());
            assert(self.captured@ + Seq::<char>::empty() =~= self.captured@);
        }
        while i < bytes.len()
            invariant
                i <= bytes.len(),
                self.source == src,
                views(out@) == feed_events(buf0, bytes@.take(i as int), src),
                self.buffer@ == feed_buffer(buf0, bytes@.take(i as int), src),
                self.captured@ == old(self).captured@ + captured_text(views(out@)),
            decreases bytes.len() - i,
        {
            let b = bytes[i];
            proof {
                let next = bytes@.take(i + 1);
                assert(next.drop_last() =~= bytes@.take(i as int));
                assert(next.last() == b);
            }
            let ghost before = views(out@);
            if b == NEWLINE {
                self.emit(Terminator::Newline, &mut out);
            } else if b == RETURN {
                self.emit(Terminator::Return, &mut out);
            } else {
                self.buffer.push(b);
            }
            proof {
                if views(out@) != before {
                    let e = views(out@).last();
                    assert(views(out@) =~= before + seq![e]);
                    lemma_captured_concat(before, seq![e]);
                    assert(old(self).captured@ + captured_text(before) + captured_text(seq![e])
                        =~= old(self).captured@ + (captured_text(before) + captured_text(
                        seq![e],
                    )));
                }
            }
            i += 1;
        }
        assert(bytes@.take(bytes.len() as int) =~= bytes@);
        out
    }

    /// Ends the stream: what is left in the buffer counts as a last log line.
    pub fn finish(&mut self) -> (out: Vec<OutputEvent>)
        ensures
            views(out@) == finish_events(old(self).buffer@, old(self).source),
            final(self).buffer@ == Seq::<u8>::empty(),
            final(self).source == old(self).source,
            final(self).captured@ == old(self).captured@ + captured_text(views(out@)),
    {
        let mut out: Vec<OutputEvent> = Vec::new();
        assert(views(out@) =~= Seq::<EventView>::empty());
        if self.buffer.len() > 0 {
            self.emit(Terminator::End, &mut out);
            proof {
                match event_of(lossy_text(old(self).buffer@), Terminator::End, old(self).source) {
                    Some(e) => {
                        assert(views(out@) =~= seq![e]);
                    },
                    None => {},
                }
            }
        }
        assert(old(self).captured@ + Seq::<char>::empty() =~= old(self).captured@);
        out
    }
}

// ---------------------------------------------------------------------------
// The line protocol towards the application
// ---------------------------------------------------------------------------

/// The prefix that marks a progress update among the lines sent on.
pub open spec fn progress_prefix() -> Seq<char> {
    "PROGRESS:"@
}

/// The line sent on for an event: a progress update carries the progress
/// prefix, a line of the error stream a warning sign.
pub open spec fn message_of(e: EventView) -> Seq<char> {
    match e {
        EventView::ProgressLine { text } => progress_prefix() + text,
        EventView::LogLine { text, source } => if source == StreamSource::Stderr {
            "⚠ "@ + text
        } else {
            text
        },
    }
}

impl OutputEvent {
    /// The line that stands for this event on the channel to the application.
    pub fn to_message(&self) -> (s: String)
        ensures
            s@ == message_of(self@),
    {
        let mut out: Vec<char> = Vec::new();
        match self {
            OutputEvent::ProgressLine { text } => {
                push_str(&mut out, "PROGRESS:");
                push_str(&mut out, text.as_str());
            },
            OutputEvent::LogLine { text, source } => {
                match source {
                    StreamSource::Stderr => {
                        push_str(&mut out, "⚠ ");
                    },
                    StreamSource::Stdout => {},
                }
                push_str(&mut out, text.as_str());
                assert(out@ =~= message_of(self@));
            },
        }
        from_chars(out.as_slice())
    }
}

} // verus!
