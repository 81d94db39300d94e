//! Captured log events: severity levels, the filter a level selects, how a log
//! line is printed, and the bounded buffer of recent lines.
use crate::text::concat;
use std::collections::VecDeque;
use vstd::prelude::*;

verus! {

/// Severity of a log event, from most to least verbose.
#[derive(Clone, Copy, Debug, PartialEq, Eq, Structural)]
pub enum LogLevel {
    Trace,
    Debug,
    Info,
    Warn,
    Error,
}

/// Most verbose level that a subscriber lets through.
#[derive(Clone, Copy, Debug, PartialEq, Eq, Structural)]
pub enum LevelFilter {
    Off,
    Error,
    Warn,
    Info,
    Debug,
    Trace,
}

/// A maximum level keeps that level and everything more severe.
pub open spec fn spec_level_filter(level: LogLevel) -> LevelFilter {
    match level {
        LogLevel::Error => LevelFilter::Error,
        LogLevel::Warn => LevelFilter::Warn,
        LogLevel::Info => LevelFilter::Info,
        LogLevel::Debug => LevelFilter::Debug,
        LogLevel::Trace => LevelFilter::Trace,
    }
}

/// The filter that lets through `level` and everything more severe.
pub fn level_filter(level: LogLevel) -> (f: LevelFilter)
    ensures
        f == spec_level_filter(level),
{
    match level {
        LogLevel::Error => LevelFilter::Error,
        LogLevel::Warn => LevelFilter::Warn,
        LogLevel::Info => LevelFilter::Info,
        LogLevel::Debug => LevelFilter::Debug,
        LogLevel::Trace => LevelFilter::Trace,
    }
}

/// The level's name padded with spaces to five characters.
pub open spec fn padded_level(level: LogLevel) -> Seq<char> {
    match level {
        LogLevel::Trace => seq!['T', 'R', 'A', 'C', 'E'],
        LogLevel::Debug => seq!['D', 'E', 'B', 'U', 'G'],
        LogLevel::Info => seq!['I', 'N', 'F', 'O', ' '],
        LogLevel::Warn => seq!['W', 'A', 'R', 'N', ' '],
        LogLevel::Error => seq!['E', 'R', 'R', 'O', 'R'],
    }
}

fn padded_level_text(level: LogLevel) -> (s: String)
    ensures
        s@ == padded_level(level),
{
    let s = match level {
        LogLevel::Trace => String::from_str("TRACE"),
        LogLevel::Debug => String::from_str("DEBUG"),
        LogLevel::Info => String::from_str("INFO "),
        LogLevel::Warn => String::from_str("WARN "),
        LogLevel::Error => String::from_str("ERROR"),
    };
    proof {
        reveal_strlit("TRACE");
        reveal_strlit("DEBUG");
        reveal_strlit("INFO ");
        reveal_strlit("WARN ");
        reveal_strlit("ERROR");
        assert(s@ =~= padded_level(level));
    }
    s
}

/// Event emitted into the ECS for each tracing log event captured by the layer.
#[derive(Clone, Debug)]
pub struct LogEvent {
    pub message: String,
    pub level: LogLevel,
}

/// How a captured event is printed above the prompt: the padded level, a space, the message.
pub fn log_event_line(ev: &LogEvent) -> (s: String)
    ensures
        s@ == padded_level(ev.level) + seq![' '] + ev.message@,
{
    let mut head = padded_level_text(ev.level);
    crate::text::push_char(&mut head, ' ');
    concat(head.as_str(), ev.message.as_str())
}

/// Configuration for in-frame logging.
#[derive(Clone, Copy, Debug)]
pub struct LogCaptureConfig {
    pub level: LogLevel,
    pub capacity: usize,
    /// Whether to install a global tracing subscriber with the capture layer.
    pub init_subscriber: bool,
}

impl Default for LogCaptureConfig {
    fn default() -> (c: LogCaptureConfig)
        ensures
            c.level == LogLevel::Info,
            c.capacity == 512,
            c.init_subscriber,
    {
        LogCaptureConfig { level: LogLevel::Info, capacity: 512, init_subscriber: true }
    }
}

/// A single log line to display inside the frame.
#[derive(Debug, Clone)]
pub struct LogLine {
    pub level: LogLevel,
    pub message: String,
}

/// Buffer of recent log lines for in-frame rendering.
#[derive(Debug)]
pub struct LogBuffer {
    pub lines: VecDeque<LogLine>,
    pub capacity: usize,
}

/// The lines after pushing `line`: the oldest line goes first when the buffer is full.
pub open spec fn spec_push(lines: Seq<LogLine>, capacity: usize, line: LogLine) -> Seq<LogLine> {
    let kept = if lines.len() >= capacity && lines.len() > 0 {
        lines.drop_first()
    } else {
        lines
    };
    kept.push(line)
}

impl LogBuffer {
    pub fn with_capacity(capacity: usize) -> (b: LogBuffer)
        ensures
            b.lines@ == Seq::<LogLine>::empty(),
            b.capacity == capacity,
    {
        LogBuffer { lines: VecDeque::new(), capacity }
    }

    /// Append a line, dropping the oldest one when the buffer is full.
    pub fn push(&mut self, line: LogLine)
        ensures
            final(self).lines@ == spec_push(old(self).lines@, old(self).capacity, line),
            final(self).capacity == old(self).capacity,
    {
        if self.lines.len() >= self.capacity {
            let _ = self.lines.pop_front();
        }
        self.lines.push_back(line);
    }
}

impl Default for LogBuffer {
    fn default() -> (b: LogBuffer)
        ensures
            b.lines@ == Seq::<LogLine>::empty(),
            b.capacity == 256,
    {
        LogBuffer { lines: VecDeque::new(), capacity: 256 }
    }
}

/// Drain captured events into the buffer, in order.
pub fn drain_events_into_buffer(events: &Vec<LogEvent>, buffer: &mut LogBuffer)
    ensures
        final(buffer).capacity == old(buffer).capacity,
        final(buffer).lines@ == drain_all(old(buffer).lines@, old(buffer).capacity, events@),
{
    let mut i: usize = 0;
    while i < events.len()
        invariant
            i <= events.len(),
            buffer.capacity == old(buffer).capacity,
            buffer.lines@ == drain_all(old(buffer).lines@, old(buffer).capacity, events@.take(i as int)),
        decreases events.len() - i,
    {
        let ev = &events[i];
        let line = LogLine { level: ev.level, message: ev.message.clone() };
        buffer.push(line);
        proof {
            assert(events@.take(i + 1).drop_last() =~= events@.take(i as int));
        }
        i = i + 1;
    }
    proof {
        assert(events@.take(i as int) =~= events@);
    }
}

/// The lines after pushing one line per event, in order.
pub open spec fn drain_all(lines: Seq<LogLine>, capacity: usize, events: Seq<LogEvent>) -> Seq<LogLine>
    decreases events.len(),
{
    if events.len() == 0 {
        lines
    } else {
        spec_push(
            drain_all(lines, capacity, events.drop_last()),
            capacity,
            LogLine { level: events.last().level, message: events.last().message },
        )
    }
}

/// A buffer that holds at most `max(capacity, 1)` lines keeps that bound after a
/// push, and the pushed line is the newest.
pub proof fn law_log_buffer_bounded(lines: Seq<LogLine>, capacity: usize, line: LogLine)
    requires
        lines.len() <= capacity || lines.len() <= 1,
    ensures
        spec_push(lines, capacity, line).len() <= capacity || spec_push(lines, capacity, line).len()
            <= 1,
        spec_push(lines, capacity, line).last() == line,
{
}

/// Plugin settings that ensure a log buffer exists and drain events into it.
#[derive(Clone, Copy, Debug)]
pub struct LogBufferPlugin {
    pub level: LogLevel,
    pub capacity: usize,
}

impl Default for LogBufferPlugin {
    fn default() -> (p: LogBufferPlugin)
        ensures
            p.level == LogLevel::Info,
            p.capacity == 512,
    {
        LogBufferPlugin { level: LogLevel::Info, capacity: 512 }
    }
}

/// Plugin settings that install the capture subscriber.
#[derive(Clone, Copy, Debug)]
pub struct CaptureSubscriberPlugin {
    pub level: LogLevel,
}

impl Default for CaptureSubscriberPlugin {
    fn default() -> (p: CaptureSubscriberPlugin)
        ensures
            p.level == LogLevel::Info,
    {
        CaptureSubscriberPlugin { level: LogLevel::Info }
    }
}

} // verus!
