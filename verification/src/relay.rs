//! Log relay: every line that the child writes becomes one event for
//! subscribers and one line of the local diagnostic log. Each of the child's
//! two streams has a relay of its own; the caller reads the lines and hands
//! them in as they come.

use vstd::prelude::*;
use vstd::string::*;

verus! {

/// One of the child's two output streams.
#[derive(Clone, Copy, Debug, PartialEq, Eq, Structural)]
pub enum LogStream {
    Stdout,
    Stderr,
}

impl LogStream {
    /// The stream's name as subscribers see it.
    pub open spec fn name_text(self) -> Seq<char> {
        match self {
            LogStream::Stdout => "stdout"@,
            LogStream::Stderr => "stderr"@,
        }
    }

    /// The stream's name as subscribers see it.
    pub fn name(&self) -> (r: &'static str)
        ensures
            r@ == self.name_text(),
    {
        match self {
            LogStream::Stdout => "stdout",
            LogStream::Stderr => "stderr",
        }
    }

    /// What a line of this stream starts with in the local log.
    pub open spec fn prefix_text(self) -> Seq<char> {
        match self {
            LogStream::Stdout => "[sidecar stdout] "@,
            LogStream::Stderr => "[sidecar stderr] "@,
        }
    }
}

/// A line that the child wrote, as published to subscribers.
#[derive(Debug)]
pub struct LogLine {
    pub stream: LogStream,
    pub line: String,
}

/// A published line as a mathematical value.
pub ghost struct LogLineView {
    pub stream: LogStream,
    pub line: Seq<char>,
}

impl View for LogLine {
    type V = LogLineView;

    open spec fn view(&self) -> LogLineView {
        LogLineView { stream: self.stream, line: self.line@ }
    }
}

impl LogLine {
    /// The line as it is written to the local diagnostic log.
    pub fn diagnostic(&self) -> (r: String)
        ensures
            r@ == self.stream.prefix_text() + self.line@,
    {
        let prefix = match self.stream {
            LogStream::Stdout => "[sidecar stdout] ",
            LogStream::Stderr => "[sidecar stderr] ",
        };
        String::from_str(prefix).concat(self.line.as_str())
    }
}

/// The count that follows `count`; it stops at the largest value.
pub open spec fn next_count(count: u64) -> u64 {
    if count == u64::MAX {
        count
    } else {
        (count + 1) as u64
    }
}

/// A relay as a mathematical value.
pub ghost struct RelayModel {
    pub stream: LogStream,
    /// How many lines have been published.
    pub forwarded: u64,
}

impl RelayModel {
    /// The event that a line is published as.
    pub open spec fn event(self, line: Seq<char>) -> LogLineView {
        LogLineView { stream: self.stream, line }
    }

    /// The events that `lines` are published as, in order.
    pub open spec fn events(self, lines: Seq<Seq<char>>) -> Seq<LogLineView> {
        Seq::new(lines.len(), |i: int| self.event(lines[i]))
    }

    /// The relay after one line.
    pub open spec fn forward(self) -> RelayModel {
        RelayModel { forwarded: next_count(self.forwarded), ..self }
    }
}

/// The relay of one stream.
#[derive(Debug)]
pub struct LogRelay {
    stream: LogStream,
    forwarded: u64,
}

impl View for LogRelay {
    type V = RelayModel;

    closed spec fn view(&self) -> RelayModel {
        RelayModel { stream: self.stream, forwarded: self.forwarded }
    }
}

impl LogRelay {
    /// A relay for `stream` that has published nothing yet.
    pub fn new(stream: LogStream) -> (r: Self)
        ensures
            r@ == (RelayModel { stream, forwarded: 0 }),
    {
        LogRelay { stream, forwarded: 0 }
    }

    /// The stream that this relay reads.
    pub fn stream(&self) -> (r: LogStream)
        ensures
            r == self@.stream,
    {
        self.stream
    }

    /// How many lines this relay has published.
    pub fn forwarded(&self) -> (r: u64)
        ensures
            r == self@.forwarded,
    {
        self.forwarded
    }

    /// Publishes one line of the stream: the event carries the line as it
    /// was read, under the stream's tag.
    pub fn forward(&mut self, line: String) -> (r: LogLine)
        ensures
            r@ == old(self)@.event(line@),
            final(self)@ == old(self)@.forward(),
    {
        if self.forwarded < u64::MAX {
            self.forwarded = self.forwarded + 1;
        }
        LogLine { stream: self.stream, line }
    }
}

/// Whether an event carries the tag of `stream`.
pub open spec fn on_stream(stream: LogStream) -> spec_fn(LogLineView) -> bool {
    |e: LogLineView| e.stream == stream
}

/// The text of each event, in order.
pub open spec fn texts_of(events: Seq<LogLineView>) -> Seq<Seq<char>> {
    Seq::new(events.len(), |i: int| events[i].line)
}

/// The lines of the events that carry the tag of `stream`, in order.
pub open spec fn lines_on(events: Seq<LogLineView>, stream: LogStream) -> Seq<Seq<char>> {
    texts_of(events.filter(on_stream(stream)))
}

proof fn lemma_own_events(relay: RelayModel, lines: Seq<Seq<char>>, stream: LogStream)
    ensures
        stream == relay.stream ==> relay.events(lines).filter(on_stream(stream)) == relay.events(
            lines,
        ),
        stream != relay.stream ==> relay.events(lines).filter(on_stream(stream)).len() == 0,
    decreases lines.len(),
{
    let events = relay.events(lines);
    reveal(Seq::filter);
    if lines.len() > 0 {
        lemma_own_events(relay, lines.drop_last(), stream);
        assert(events.drop_last() =~= relay.events(lines.drop_last()));
        if stream == relay.stream {
            assert(events.drop_last().push(events.last()) =~= events);
        }
    } else {
        assert(events =~= Seq::<LogLineView>::empty());
    }
}

/// A relay publishes as many events as it was handed lines, each under its
/// own stream's tag and with the line's text, in the order in which the
/// lines were written; under the other stream's tag it publishes nothing.
pub proof fn law_relay_keeps_lines(relay: RelayModel, lines: Seq<Seq<char>>, stream: LogStream)
    ensures
        relay.events(lines).len() == lines.len(),
        stream == relay.stream ==> lines_on(relay.events(lines), stream) == lines,
        stream != relay.stream ==> lines_on(relay.events(lines), stream).len() == 0,
{
    lemma_own_events(relay, lines, stream);
    if stream == relay.stream {
        assert(texts_of(relay.events(lines)) =~= lines);
    }
}

/// However the events of the two streams' relays are interleaved on their
/// way to a subscriber, what arrives under each stream's tag is what was
/// written to that stream, line for line and in order.
pub proof fn law_streams_stay_apart(
    stdout_lines: Seq<Seq<char>>,
    stderr_lines: Seq<Seq<char>>,
    arrived: Seq<LogLineView>,
)
    requires
        arrived.filter(on_stream(LogStream::Stdout)) == (RelayModel {
            stream: LogStream::Stdout,
            forwarded: 0,
        }).events(stdout_lines),
        arrived.filter(on_stream(LogStream::Stderr)) == (RelayModel {
            stream: LogStream::Stderr,
            forwarded: 0,
        }).events(stderr_lines),
    ensures
        lines_on(arrived, LogStream::Stdout) == stdout_lines,
        lines_on(arrived, LogStream::Stderr) == stderr_lines,
        arrived.filter(on_stream(LogStream::Stdout)).len() == stdout_lines.len(),
        arrived.filter(on_stream(LogStream::Stderr)).len() == stderr_lines.len(),
{
    assert(lines_on(arrived, LogStream::Stdout) =~= stdout_lines);
    assert(lines_on(arrived, LogStream::Stderr) =~= stderr_lines);
}

} // verus!
