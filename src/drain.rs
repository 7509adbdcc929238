use vstd::prelude::*;

verus! {

/// One of a child's two output streams.
#[derive(Clone, Copy, Debug, PartialEq, Eq)]
pub enum OutputStream {
    Stdout,
    Stderr,
}

impl OutputStream {
    /// The tag that log entries from this stream carry.
    pub open spec fn spec_tag(self) -> Seq<char> {
        match self {
            OutputStream::Stdout => "out"@,
            OutputStream::Stderr => "err"@,
        }
    }

    /// Returns the tag of this stream: `out` or `err`.
    pub fn tag(self) -> (r: &'static str)
        ensures
            r@ == self.spec_tag(),
    {
        match self {
            OutputStream::Stdout => "out",
            OutputStream::Stderr => "err",
        }
    }
}

/// What one read of a line from a stream gave.
#[derive(Clone, Debug)]
pub enum LineEvent {
    /// A complete line, without its terminator.
    Line(String),
    /// The stream closed.
    End,
    /// Reading failed; the text describes the error.
    ReadError(String),
}

/// The level at which a log entry is written.
#[derive(Clone, Copy, Debug, PartialEq, Eq)]
pub enum LogLevel {
    Debug,
    Warn,
}

/// One entry for the log.
#[derive(Clone, Debug)]
pub struct LogEntry {
    pub level: LogLevel,
    pub stream: OutputStream,
    pub text: String,
}

/// What to do after one read: the entry to log, if any, and whether the
/// stream is finished.
#[derive(Clone, Debug)]
pub struct DrainStep {
    pub entry: Option<LogEntry>,
    pub done: bool,
}

/// Whether `step` is the right reaction to `event` on `stream`: a line is
/// logged at debug level and reading goes on; the end of the stream stops it
/// quietly; a read error is logged as a warning and ends the stream.
pub open spec fn is_drain_step(stream: OutputStream, event: LineEvent, step: DrainStep) -> bool {
    match event {
        LineEvent::Line(l) => !step.done && step.entry is Some && step.entry->0.level
            == LogLevel::Debug && step.entry->0.stream == stream && step.entry->0.text@ == l@,
        LineEvent::End => step.done && step.entry is None,
        LineEvent::ReadError(e) => step.done && step.entry is Some && step.entry->0.level
            == LogLevel::Warn && step.entry->0.stream == stream && step.entry->0.text@ == e@,
    }
}

/// Decides what to do with one read from a child's output stream.
pub fn drain_step(stream: OutputStream, event: LineEvent) -> (step: DrainStep)
    ensures
        is_drain_step(stream, event, step),
{
    match event {
        LineEvent::Line(l) => DrainStep {
            entry: Some(LogEntry { level: LogLevel::Debug, stream, text: l }),
            done: false,
        },
        LineEvent::End => DrainStep { entry: None, done: true },
        LineEvent::ReadError(e) => DrainStep {
            entry: Some(LogEntry { level: LogLevel::Warn, stream, text: e }),
            done: true,
        },
    }
}

/// A log entry seen as values: level, stream and text.
pub open spec fn entry_view(e: LogEntry) -> (LogLevel, OutputStream, Seq<char>) {
    (e.level, e.stream, e.text@)
}

/// The entries that draining a stream writes for a sequence of reads, which
/// stops at the first read that ends the stream.
pub open spec fn drained(stream: OutputStream, events: Seq<LineEvent>) -> Seq<
    (LogLevel, OutputStream, Seq<char>),
>
    decreases events.len(),
{
    if events.len() == 0 {
        Seq::empty()
    } else {
        match events[0] {
            LineEvent::Line(l) => seq![(LogLevel::Debug, stream, l@)] + drained(
                stream,
                events.drop_first(),
            ),
            LineEvent::End => Seq::empty(),
            LineEvent::ReadError(e) => seq![(LogLevel::Warn, stream, e@)],
        }
    }
}

/// Following the steps of `drain_step` until one is done writes exactly the
/// entries of `drained`.
pub proof fn lemma_steps_follow_drained(
    stream: OutputStream,
    event: LineEvent,
    step: DrainStep,
    rest: Seq<LineEvent>,
)
    requires
        is_drain_step(stream, event, step),
    ensures
        drained(stream, seq![event] + rest) == (match step.entry {
            Some(e) => seq![entry_view(e)],
            None => Seq::empty(),
        }) + if step.done {
            Seq::empty()
        } else {
            drained(stream, rest)
        },
{
    let all = seq![event] + rest;
    assert(all[0] == event);
    assert(all.drop_first() =~= rest);
    match event {
        LineEvent::Line(l) => {},
        LineEvent::End => {
            assert(drained(stream, all) =~= Seq::<(LogLevel, OutputStream, Seq<char>)>::empty());
        },
        LineEvent::ReadError(e) => {
            assert(drained(stream, all) =~= seq![entry_view(step.entry->0)]);
        },
    }
}

/// A stream that gives `lines` and then closes is logged as exactly one
/// debug entry per line, in order, each tagged with the stream and holding
/// the line's exact text.
pub proof fn lemma_lines_logged_exactly(
    stream: OutputStream,
    lines: Seq<String>,
    events: Seq<LineEvent>,
)
    requires
        events.len() == lines.len() + 1,
        forall|i: int| 0 <= i < lines.len() ==> #[trigger] events[i] == LineEvent::Line(lines[i]),
        events[lines.len() as int] == LineEvent::End,
    ensures
        drained(stream, events).len() == lines.len(),
        forall|i: int|
            0 <= i < lines.len() ==> #[trigger] drained(stream, events)[i] == (
                LogLevel::Debug,
                stream,
                lines[i]@,
            ),
    decreases lines.len(),
{
    if lines.len() == 0 {
        assert(events[0] == LineEvent::End);
    } else {
        let rest = events.drop_first();
        let more = lines.drop_first();
        assert(events[0] == LineEvent::Line(lines[0]));
        assert forall|i: int| 0 <= i < more.len() implies #[trigger] rest[i] == LineEvent::Line(
            more[i],
        ) by {
            assert(events[i + 1] == LineEvent::Line(lines[i + 1]));
        }
        assert(rest[more.len() as int] == events[lines.len() as int]);
        lemma_lines_logged_exactly(stream, more, rest);
        let d = drained(stream, events);
        assert(d == seq![(LogLevel::Debug, stream, lines[0]@)] + drained(stream, rest));
        assert forall|i: int| 0 <= i < lines.len() implies #[trigger] d[i] == (
            LogLevel::Debug,
            stream,
            lines[i]@,
        ) by {
            if i > 0 {
                assert(d[i] == drained(stream, rest)[i - 1]);
            }
        }
    }
}

} // verus!
