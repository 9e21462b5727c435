//! The work queue: ready, held and in-flight entries with subject,
//! status, priority and age.
use vstd::prelude::*;
use crate::text::{owned, short_id, signed_decimal, signed_decimal_string, truncated};
use crate::views::{
    age_text, clamp_selection, Timestamp, clamped, elapsed, elapsed_seconds, error_span, error_text,
    humanize_age, labels, moved_down, moved_up, select_down, select_up, selection_ok, styled, Row,
    Span, Tone,
};

verus! {

#[derive(Debug, Clone, Copy, PartialEq, Eq, Structural)]
pub enum QueueEntryStatus {
    Ready,
    Held,
    InFlight,
    Done,
    Dropped,
}

/// One queue entry as the view shows it; `enqueued_at` is when it was queued.
pub struct QueueEntry {
    pub id: String,
    pub subject_id: String,
    pub status: QueueEntryStatus,
    pub priority: i64,
    pub enqueued_at: Timestamp,
}

pub struct QueueView {
    pub entries: Vec<QueueEntry>,
    pub selected: usize,
    pub error: Option<String>,
}

/// The status as the table prints it (the variant name in lower case).
pub open spec fn status_label(s: QueueEntryStatus) -> Seq<char> {
    match s {
        QueueEntryStatus::Ready => "ready"@,
        QueueEntryStatus::Held => "held"@,
        QueueEntryStatus::InFlight => "inflight"@,
        QueueEntryStatus::Done => "done"@,
        QueueEntryStatus::Dropped => "dropped"@,
    }
}

fn status_text(s: QueueEntryStatus) -> (r: String)
    ensures
        r@ == status_label(s),
{
    match s {
        QueueEntryStatus::Ready => owned("ready"),
        QueueEntryStatus::Held => owned("held"),
        QueueEntryStatus::InFlight => owned("inflight"),
        QueueEntryStatus::Done => owned("done"),
        QueueEntryStatus::Dropped => owned("dropped"),
    }
}

pub open spec fn status_tone(s: QueueEntryStatus) -> Tone {
    match s {
        QueueEntryStatus::Done => Tone::Good,
        QueueEntryStatus::Held => Tone::Warn,
        QueueEntryStatus::Dropped => Tone::Bad,
        _ => Tone::Fg,
    }
}

pub fn status_color(s: QueueEntryStatus) -> (t: Tone)
    ensures
        t == status_tone(s),
{
    match s {
        QueueEntryStatus::Done => Tone::Good,
        QueueEntryStatus::Held => Tone::Warn,
        QueueEntryStatus::Dropped => Tone::Bad,
        QueueEntryStatus::Ready | QueueEntryStatus::InFlight => Tone::Fg,
    }
}

/// The table row of an entry at time `now`.
pub open spec fn entry_row(e: QueueEntry, now: Timestamp) -> (Seq<Seq<char>>, Option<Tone>) {
    (
        seq![
            truncated(e.id@, 14),
            e.subject_id@,
            status_label(e.status),
            signed_decimal(e.priority as int),
            age_text(elapsed(now, e.enqueued_at)),
        ],
        Some(status_tone(e.status)),
    )
}

/// Total queue depth from the daemon's counters.
pub open spec fn depth(ready: nat, held: nat, in_flight: nat) -> nat {
    ready + held + in_flight
}

/// Ready plus held plus in-flight entries.
pub fn queue_depth(ready: u64, held: u64, in_flight: u64) -> (d: usize)
    requires
        ready + held + in_flight <= usize::MAX,
    ensures
        d == depth(ready as nat, held as nat, in_flight as nat),
{
    (ready + held + in_flight) as usize
}

impl Default for QueueView {
    fn default() -> (v: Self)
        ensures
            v.entries@.len() == 0,
            v.selected == 0,
            v.error is None,
    {
        QueueView::new()
    }
}

impl QueueView {
    pub fn new() -> (v: QueueView)
        ensures
            v.entries@.len() == 0,
            v.selected == 0,
            v.error is None,
    {
        QueueView { entries: Vec::new(), selected: 0, error: None }
    }

    /// Replaces the entries after a successful refresh and clears the error.
    pub fn set(&mut self, entries: Vec<QueueEntry>)
        ensures
            final(self).entries == entries,
            final(self).selected == clamped(old(self).selected as nat, entries@.len()),
            selection_ok(final(self).selected as nat, final(self).entries@.len()),
            final(self).error is None,
    {
        self.selected = clamp_selection(self.selected, entries.len());
        self.entries = entries;
        self.error = None;
    }

    pub fn set_error(&mut self, msg: String)
        ensures
            final(self).error == Some(msg),
            final(self).entries == old(self).entries,
            final(self).selected == old(self).selected,
    {
        self.error = Some(msg);
    }

    pub fn up(&mut self)
        ensures
            final(self).selected == moved_up(old(self).selected as nat),
            final(self).entries == old(self).entries,
            final(self).error == old(self).error,
    {
        self.selected = select_up(self.selected);
    }

    pub fn down(&mut self)
        ensures
            final(self).selected == moved_down(old(self).selected as nat, old(self).entries@.len()),
            final(self).entries == old(self).entries,
            final(self).error == old(self).error,
    {
        self.selected = select_down(self.selected, self.entries.len());
    }

    /// What the view shows instead of the table: the error of the last
    /// refresh, or a note that the queue is empty.
    pub fn notice(&self) -> (n: Option<Span>)
        ensures
            match self.error {
                Some(e) => n matches Some(s) && s@ == (error_text(e@), Some(Tone::Bad), false),
                None => if self.entries@.len() == 0 {
                    n matches Some(s) && s@ == ("queue empty"@, Some(Tone::FgDim), false)
                } else {
                    n is None
                },
            },
    {
        match &self.error {
            Some(e) => Some(error_span(e)),
            None => {
                if self.entries.len() == 0 {
                    Some(styled(owned("queue empty"), Tone::FgDim))
                } else {
                    None
                }
            },
        }
    }

    pub fn header(&self) -> (h: Vec<String>)
        ensures
            h.deep_view() == seq!["id"@, "subject"@, "status"@, "prio"@, "age"@],
    {
        let h = labels(&["id", "subject", "status", "prio", "age"]);
        assert(h.deep_view() =~= seq!["id"@, "subject"@, "status"@, "prio"@, "age"@]);
        h
    }

    /// The table rows at time `now`, one per entry, in order.
    pub fn rows(&self, now: Timestamp) -> (r: Vec<Row>)
        ensures
            r.deep_view() == self.entries@.map_values(|w: QueueEntry| entry_row(w, now)),
    {
        let mut out: Vec<Row> = Vec::new();
        let mut i: usize = 0;
        while i < self.entries.len()
            invariant
                i <= self.entries@.len(),
                out.deep_view() == self.entries@.take(i as int).map_values(
                    |w: QueueEntry| entry_row(w, now),
                ),
            decreases self.entries@.len() - i,
        {
            let w = &self.entries[i];
            let mut cells: Vec<String> = Vec::new();
            cells.push(short_id(w.id.as_str(), 14));
            cells.push(w.subject_id.clone());
            cells.push(status_text(w.status));
            cells.push(signed_decimal_string(w.priority));
            cells.push(humanize_age(elapsed_seconds(now, w.enqueued_at)));
            let row = Row { cells, tone: Some(status_color(w.status)) };
            assert(row.deep_view() =~~= entry_row(*w, now));
            let ghost before = out.deep_view();
            out.push(row);
            assert(out.deep_view() =~= before.push(entry_row(*w, now)));
            assert(self.entries@.take(i + 1).map_values(|x: QueueEntry| entry_row(x, now))
                =~= self.entries@.take(i as int).map_values(|x: QueueEntry| entry_row(x, now)).push(
                entry_row(*w, now),
            ));
            i += 1;
        }
        assert(self.entries@.take(self.entries@.len() as int) =~= self.entries@);
        out
    }
}

} // verus!
