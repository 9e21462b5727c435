//! The log tail: a bounded buffer of daemon log lines, a severity filter
//! that cycles on `f`, and the lines the view shows.
use vstd::prelude::*;
use std::collections::VecDeque;
use crate::text::{decimal, push_char, push_decimal, push_str, push_two_digits, two_digits};
use crate::views::{error_span, error_text, raw, styled, Span, Tone};

verus! {

/// How many log lines the view keeps; older ones are dropped.
pub const MAX_LINES: usize = 2000;

#[derive(Debug, Clone, Copy, PartialEq, Eq, Structural)]
pub enum Severity {
    Info,
    Warn,
    Error,
}

/// Levels of the daemon's log records.
#[derive(Debug, Clone, Copy, PartialEq, Eq, Structural)]
pub enum LogLevel {
    Error,
    Warn,
    Info,
    Debug,
    Trace,
}

pub struct LogEntry {
    pub severity: Severity,
    pub timestamp: String,
    pub message: String,
}

pub struct LogsView {
    pub lines: VecDeque<LogEntry>,
    pub min_severity: Option<Severity>,
    pub dropped: usize,
    pub error: Option<String>,
}

pub open spec fn rank(s: Severity) -> nat {
    match s {
        Severity::Info => 0,
        Severity::Warn => 1,
        Severity::Error => 2,
    }
}

pub fn severity_rank(s: Severity) -> (r: u8)
    ensures
        r == rank(s),
{
    match s {
        Severity::Info => 0,
        Severity::Warn => 1,
        Severity::Error => 2,
    }
}

/// The filter after one press of `f`: all, info+, warn+, error, all, ...
pub open spec fn next_filter(f: Option<Severity>) -> Option<Severity> {
    match f {
        None => Some(Severity::Info),
        Some(Severity::Info) => Some(Severity::Warn),
        Some(Severity::Warn) => Some(Severity::Error),
        Some(Severity::Error) => None,
    }
}

/// Whether a line of severity `s` passes the filter.
pub open spec fn passes(s: Severity, min: Option<Severity>) -> bool {
    match min {
        None => true,
        Some(m) => rank(s) >= rank(m),
    }
}

/// The severity a daemon log level is shown with.
pub open spec fn severity_of(level: LogLevel) -> Severity {
    match level {
        LogLevel::Error => Severity::Error,
        LogLevel::Warn => Severity::Warn,
        _ => Severity::Info,
    }
}

/// The lines of `s` that pass the filter, in order.
pub open spec fn filtered(s: Seq<LogEntry>, min: Option<Severity>) -> Seq<LogEntry>
    decreases s.len(),
{
    if s.len() == 0 {
        seq![]
    } else {
        let f = filtered(s.drop_last(), min);
        if passes(s.last().severity, min) {
            f.push(s.last())
        } else {
            f
        }
    }
}

/// Where the shown tail starts among `len` filtered lines when `rows`
/// rows are available (at least one line is always shown).
pub open spec fn tail_start(len: nat, rows: nat) -> nat {
    let want = if rows == 0 {
        1
    } else {
        rows
    };
    if len > want {
        (len - want) as nat
    } else {
        0
    }
}

/// The lines shown: the last `max(rows, 1)` lines that pass the filter.
pub open spec fn shown(s: Seq<LogEntry>, min: Option<Severity>, rows: nat) -> Seq<LogEntry> {
    let f = filtered(s, min);
    f.skip(tail_start(f.len(), rows) as int)
}

pub open spec fn severity_tone(s: Severity) -> Tone {
    match s {
        Severity::Info => Tone::Fg,
        Severity::Warn => Tone::Warn,
        Severity::Error => Tone::Bad,
    }
}

/// A shown line: dimmed time, two spaces, the message coloured by severity.
pub open spec fn entry_line(e: LogEntry) -> Seq<(Seq<char>, Option<Tone>, bool)> {
    seq![
        (e.timestamp@, Some(Tone::FgDim), false),
        (seq![' ', ' '], None, false),
        (e.message@, Some(severity_tone(e.severity)), false),
    ]
}

/// The filter label in the title.
pub open spec fn filter_label(min: Option<Severity>) -> Seq<char> {
    match min {
        None => "all"@,
        Some(Severity::Info) => "info+"@,
        Some(Severity::Warn) => "warn+"@,
        Some(Severity::Error) => "error"@,
    }
}

/// `" Logs  (filter: <label>)  dropped: <n> "`.
pub open spec fn logs_title(min: Option<Severity>, dropped: nat) -> Seq<char> {
    " Logs  (filter: "@ + filter_label(min) + ")  dropped: "@ + decimal(dropped) + " "@
}

/// The buffer and drop count after appending `e`: when `MAX_LINES` lines
/// are already held, the oldest goes and is counted.
pub open spec fn after_push(lines: Seq<LogEntry>, dropped: nat, e: LogEntry) -> (Seq<LogEntry>, nat) {
    if lines.len() >= MAX_LINES {
        (lines.drop_first().push(e), dropped + 1)
    } else {
        (lines.push(e), dropped)
    }
}

/// `HH:MM:SS`.
pub open spec fn clock_text(hour: nat, minute: nat, second: nat) -> Seq<char> {
    two_digits(hour) + seq![':'] + two_digits(minute) + seq![':'] + two_digits(second)
}

impl Default for LogsView {
    fn default() -> (v: Self)
        ensures
            v.lines@.len() == 0,
            v.min_severity is None,
            v.dropped == 0,
            v.error is None,
    {
        LogsView::new()
    }
}

impl LogsView {
    pub fn new() -> (v: LogsView)
        ensures
            v.lines@.len() == 0,
            v.min_severity is None,
            v.dropped == 0,
            v.error is None,
    {
        LogsView { lines: VecDeque::new(), min_severity: None, dropped: 0, error: None }
    }

    /// Appends a line, dropping (and counting) the oldest one when the
    /// buffer is full.
    pub fn push(&mut self, entry: LogEntry)
        requires
            old(self).lines@.len() >= MAX_LINES ==> old(self).dropped < usize::MAX,
        ensures
            (final(self).lines@, final(self).dropped as nat) == after_push(
                old(self).lines@,
                old(self).dropped as nat,
                entry,
            ),
            final(self).min_severity == old(self).min_severity,
            final(self).error == old(self).error,
    {
        if self.lines.len() >= MAX_LINES {
            let _ = self.lines.pop_front();
            self.dropped += 1;
        }
        self.lines.push_back(entry);
    }

    /// Converts a daemon log record (level, wall-clock time of day, message)
    /// into a line and appends it.
    pub fn ingest(&mut self, level: LogLevel, hour: u32, minute: u32, second: u32, message: String)
        requires
            hour < 100,
            minute < 100,
            second < 100,
            old(self).lines@.len() >= MAX_LINES ==> old(self).dropped < usize::MAX,
        ensures
            final(self).lines@.len() > 0,
            ({
                let e = final(self).lines@.last();
                &&& (final(self).lines@, final(self).dropped as nat) == after_push(
                    old(self).lines@,
                    old(self).dropped as nat,
                    e,
                )
                &&& e.severity == severity_of(level)
                &&& e.timestamp@ == clock_text(hour as nat, minute as nat, second as nat)
                &&& e.message == message
            }),
            final(self).min_severity == old(self).min_severity,
            final(self).error == old(self).error,
    {
        let severity = match level {
            LogLevel::Error => Severity::Error,
            LogLevel::Warn => Severity::Warn,
            LogLevel::Info | LogLevel::Debug | LogLevel::Trace => Severity::Info,
        };
        let mut timestamp = String::new();
        push_two_digits(&mut timestamp, hour);
        push_char(&mut timestamp, ':');
        push_two_digits(&mut timestamp, minute);
        push_char(&mut timestamp, ':');
        push_two_digits(&mut timestamp, second);
        self.push(LogEntry { severity, timestamp, message });
    }

    pub fn set_error(&mut self, msg: String)
        ensures
            final(self).error == Some(msg),
            final(self).lines == old(self).lines,
            final(self).min_severity == old(self).min_severity,
            final(self).dropped == old(self).dropped,
    {
        self.error = Some(msg);
    }

    /// Moves the severity filter one step: all, info+, warn+, error, all.
    pub fn cycle_filter(&mut self)
        ensures
            final(self).min_severity == next_filter(old(self).min_severity),
            final(self).lines == old(self).lines,
            final(self).dropped == old(self).dropped,
            final(self).error == old(self).error,
    {
        self.min_severity = match self.min_severity {
            None => Some(Severity::Info),
            Some(Severity::Info) => Some(Severity::Warn),
            Some(Severity::Warn) => Some(Severity::Error),
            Some(Severity::Error) => None,
        };
    }

    /// The view's title.
    pub fn title(&self) -> (t: String)
        ensures
            t@ == logs_title(self.min_severity, self.dropped as nat),
    {
        let mut t = String::new();
        push_str(&mut t, " Logs  (filter: ");
        match self.min_severity {
            None => push_str(&mut t, "all"),
            Some(Severity::Info) => push_str(&mut t, "info+"),
            Some(Severity::Warn) => push_str(&mut t, "warn+"),
            Some(Severity::Error) => push_str(&mut t, "error"),
        }
        push_str(&mut t, ")  dropped: ");
        push_decimal(&mut t, self.dropped as u64);
        push_str(&mut t, " ");
        t
    }

    /// The error notice shown instead of the lines, if the last refresh failed.
    pub fn notice(&self) -> (n: Option<Span>)
        ensures
            match self.error {
                Some(e) => n matches Some(s) && s@ == (error_text(e@), Some(Tone::Bad), false),
                None => n is None,
            },
    {
        match &self.error {
            Some(e) => Some(error_span(e)),
            None => None,
        }
    }

    /// The lines shown in a body of `rows` rows: the newest lines that pass
    /// the filter, oldest first, at least one.
    pub fn visible_lines(&self, rows: usize) -> (r: Vec<Vec<Span>>)
        ensures
            r.deep_view() == shown(self.lines@, self.min_severity, rows as nat).map_values(
                |e: LogEntry| entry_line(e),
            ),
    {
        let ghost s = self.lines@;
        let min = self.min_severity;
        let n = self.lines.len();
        let mut idx: Vec<usize> = Vec::new();
        let mut k: usize = 0;
        while k < n
            invariant
                k <= n,
                n == s.len(),
                s == self.lines@,
                min == self.min_severity,
                idx@.len() == filtered(s.take(k as int), min).len(),
                forall|j: int|
                    0 <= j < idx@.len() ==> #[trigger] idx@[j] < n && s[idx@[j] as int]
                        == filtered(s.take(k as int), min)[j],
            decreases n - k,
        {
            let sev = self.lines[k].severity;
            let ok = match min {
                None => true,
                Some(m) => severity_rank(sev) >= severity_rank(m),
            };
            assert(s.take(k + 1).drop_last() == s.take(k as int));
            assert(s.take(k + 1).last() == s[k as int]);
            if ok {
                idx.push(k);
            }
            k += 1;
        }
        assert(s.take(n as int) == s);
        let ghost f = filtered(s, min);
        let want: usize = if rows == 0 {
            1
        } else {
            rows
        };
        let start: usize = if idx.len() > want {
            idx.len() - want
        } else {
            0
        };
        let ghost target = f.skip(start as int).map_values(|e: LogEntry| entry_line(e));
        let mut out: Vec<Vec<Span>> = Vec::new();
        let mut p: usize = start;
        while p < idx.len()
            invariant
                start <= p <= idx@.len(),
                idx@.len() == f.len(),
                forall|j: int| 0 <= j < idx@.len() ==> #[trigger] idx@[j] < n && s[idx@[j] as int] == f[j],
                n == s.len(),
                s == self.lines@,
                target == f.skip(start as int).map_values(|e: LogEntry| entry_line(e)),
                out.deep_view() == target.take(p - start),
            decreases idx@.len() - p,
        {
            let i = idx[p];
            assert(s[i as int] == f[p as int]);
            let e = &self.lines[i];
            let mut line: Vec<Span> = Vec::new();
            line.push(styled(e.timestamp.clone(), Tone::FgDim));
            let mut gap = String::new();
            push_char(&mut gap, ' ');
            push_char(&mut gap, ' ');
            line.push(raw(gap));
            let tone = match e.severity {
                Severity::Info => Tone::Fg,
                Severity::Warn => Tone::Warn,
                Severity::Error => Tone::Bad,
            };
            line.push(styled(e.message.clone(), tone));
            assert(*e == f[p as int]);
            assert(line.deep_view() =~~= entry_line(f[p as int]));
            let ghost before = out.deep_view();
            out.push(line);
            assert(out.deep_view() =~= before.push(entry_line(f[p as int])));
            assert(target.take(p + 1 - start) =~= target.take(p - start).push(
                entry_line(f[p as int]),
            ));
            p += 1;
        }
        assert(target.take(idx@.len() - start) =~= target);
        out
    }
}

/// Law: a daemon record keeps its level as the line's severity: errors stay
/// errors, warnings stay warnings, and only info, debug and trace records
/// count as info. So a line passes the `warn+` filter exactly when its
/// record was a warning or an error, and the `error` filter exactly when it
/// was an error.
pub proof fn lemma_levels_keep_severity(level: LogLevel)
    ensures
        severity_of(LogLevel::Error) == Severity::Error,
        severity_of(LogLevel::Warn) == Severity::Warn,
        severity_of(LogLevel::Info) == Severity::Info,
        severity_of(LogLevel::Debug) == Severity::Info,
        severity_of(LogLevel::Trace) == Severity::Info,
        passes(severity_of(level), Some(Severity::Warn)) <==> (level == LogLevel::Warn || level
            == LogLevel::Error),
        passes(severity_of(level), Some(Severity::Error)) <==> level == LogLevel::Error,
        passes(severity_of(level), Some(Severity::Info)),
        severity_tone(severity_of(level)) == (if level == LogLevel::Error {
            Tone::Bad
        } else if level == LogLevel::Warn {
            Tone::Warn
        } else {
            Tone::Fg
        }),
{
}

/// Law: pressing `f` four times brings the filter back to where it was.
pub proof fn lemma_filter_cycle_period(f: Option<Severity>)
    ensures
        next_filter(next_filter(next_filter(next_filter(f)))) == f,
        next_filter(f) != f,
{
}

/// Law: the buffer never grows past `MAX_LINES` lines, and no line is
/// lost without being counted: kept plus dropped grows by one per push.
pub proof fn lemma_push_bounded_and_counted(lines: Seq<LogEntry>, dropped: nat, e: LogEntry)
    requires
        lines.len() <= MAX_LINES,
    ensures
        after_push(lines, dropped, e).0.len() <= MAX_LINES,
        after_push(lines, dropped, e).0.len() + after_push(lines, dropped, e).1 == lines.len()
            + dropped + 1,
        after_push(lines, dropped, e).0.last() == e,
{
}

/// Law: the shown lines are a suffix of the filtered lines, hold at most
/// `max(rows, 1)` lines, and every one of them passes the filter.
pub proof fn lemma_shown_lines(s: Seq<LogEntry>, min: Option<Severity>, rows: nat)
    ensures
        shown(s, min, rows).len() <= if rows == 0 {
            1
        } else {
            rows
        },
        forall|j: int|
            0 <= j < shown(s, min, rows).len() ==> passes(#[trigger] shown(s, min, rows)[j].severity, min),
        shown(s, min, rows).len() == filtered(s, min).len() || shown(s, min, rows).len() == (if rows
            == 0 {
            1
        } else {
            rows
        }),
{
    lemma_filtered_pass(s, min);
    let f = filtered(s, min);
    let st = tail_start(f.len(), rows);
    assert forall|j: int| 0 <= j < shown(s, min, rows).len() implies passes(
        #[trigger] shown(s, min, rows)[j].severity,
        min,
    ) by {
        assert(shown(s, min, rows)[j] == f[j + st]);
    }
}

proof fn lemma_filtered_pass(s: Seq<LogEntry>, min: Option<Severity>)
    ensures
        forall|j: int|
            0 <= j < filtered(s, min).len() ==> passes(#[trigger] filtered(s, min)[j].severity, min),
        filtered(s, min).len() <= s.len(),
    decreases s.len(),
{
    if s.len() > 0 {
        lemma_filtered_pass(s.drop_last(), min);
    }
}

} // verus!
