//! Recent workflow runs: a selectable table with id, definition, status,
//! subject and age.
use vstd::prelude::*;
use crate::text::{owned, short_id, truncated};
use crate::views::{
    age_text, clamp_selection, Timestamp, clamped, elapsed, elapsed_seconds, error_span, error_text,
    humanize_age, labels, moved_down, moved_up, or_dash, or_dash_string, select_down, select_up,
    selection_ok, styled, Row, Span, Tone,
};

verus! {

#[derive(Debug, Clone, Copy, PartialEq, Eq, Structural)]
pub enum WorkflowStatus {
    Pending,
    Running,
    Paused,
    Completed,
    Failed,
    Cancelled,
}

/// One run as the view shows it; `started_at` is when it started.
pub struct WorkflowRun {
    pub id: String,
    pub definition: String,
    pub status: WorkflowStatus,
    pub subject_id: Option<String>,
    pub started_at: Timestamp,
}

pub struct WorkflowsView {
    pub runs: Vec<WorkflowRun>,
    pub selected: usize,
    pub error: Option<String>,
}

/// Whether a run still counts as active (running, pending or paused).
pub open spec fn is_active(s: WorkflowStatus) -> bool {
    s == WorkflowStatus::Running || s == WorkflowStatus::Pending || s == WorkflowStatus::Paused
}

pub fn workflow_active(s: WorkflowStatus) -> (b: bool)
    ensures
        b == is_active(s),
{
    match s {
        WorkflowStatus::Running | WorkflowStatus::Pending | WorkflowStatus::Paused => true,
        _ => false,
    }
}

/// The status as the table prints it (the variant name in lower case).
pub open spec fn status_label(s: WorkflowStatus) -> Seq<char> {
    match s {
        WorkflowStatus::Pending => "pending"@,
        WorkflowStatus::Running => "running"@,
        WorkflowStatus::Paused => "paused"@,
        WorkflowStatus::Completed => "completed"@,
        WorkflowStatus::Failed => "failed"@,
        WorkflowStatus::Cancelled => "cancelled"@,
    }
}

fn status_text(s: WorkflowStatus) -> (r: String)
    ensures
        r@ == status_label(s),
{
    match s {
        WorkflowStatus::Pending => owned("pending"),
        WorkflowStatus::Running => owned("running"),
        WorkflowStatus::Paused => owned("paused"),
        WorkflowStatus::Completed => owned("completed"),
        WorkflowStatus::Failed => owned("failed"),
        WorkflowStatus::Cancelled => owned("cancelled"),
    }
}

/// Completed runs are good news, failed and cancelled ones bad.
pub open spec fn status_tone(s: WorkflowStatus) -> Tone {
    match s {
        WorkflowStatus::Completed => Tone::Good,
        WorkflowStatus::Failed | WorkflowStatus::Cancelled => Tone::Bad,
        _ => Tone::Fg,
    }
}

pub fn status_color(s: WorkflowStatus) -> (t: Tone)
    ensures
        t == status_tone(s),
{
    match s {
        WorkflowStatus::Completed => Tone::Good,
        WorkflowStatus::Running | WorkflowStatus::Pending | WorkflowStatus::Paused => Tone::Fg,
        WorkflowStatus::Failed | WorkflowStatus::Cancelled => Tone::Bad,
    }
}

/// The table row of a run at time `now`.
pub open spec fn run_row(r: WorkflowRun, now: Timestamp) -> (Seq<Seq<char>>, Option<Tone>) {
    (
        seq![
            truncated(r.id@, 14),
            r.definition@,
            status_label(r.status),
            or_dash(r.subject_id),
            age_text(elapsed(now, r.started_at)),
        ],
        Some(status_tone(r.status)),
    )
}

/// The number of active runs among `runs`.
pub open spec fn active_count(runs: Seq<WorkflowRun>) -> nat
    decreases runs.len(),
{
    if runs.len() == 0 {
        0
    } else {
        active_count(runs.drop_last()) + if is_active(runs.last().status) {
            1nat
        } else {
            0nat
        }
    }
}

/// Law: the header's count of active runs never exceeds the number of runs.
pub proof fn lemma_active_count_bound(runs: Seq<WorkflowRun>)
    ensures
        active_count(runs) <= runs.len(),
    decreases runs.len(),
{
    if runs.len() > 0 {
        lemma_active_count_bound(runs.drop_last());
    }
}

/// How many of `runs` are running, pending or paused.
pub fn count_active(runs: &Vec<WorkflowRun>) -> (n: usize)
    ensures
        n == active_count(runs@),
{
    let mut n: usize = 0;
    let mut i: usize = 0;
    while i < runs.len()
        invariant
            i <= runs.len(),
            n == active_count(runs@.take(i as int)),
        decreases runs.len() - i,
    {
        proof {
            lemma_active_count_bound(runs@.take(i as int));
        }
        assert(runs@.take(i + 1).drop_last() == runs@.take(i as int));
        if workflow_active(runs[i].status) {
            n += 1;
        }
        i += 1;
    }
    assert(runs@.take(runs.len() as int) == runs@);
    n
}

impl Default for WorkflowsView {
    fn default() -> (v: Self)
        ensures
            v.runs@.len() == 0,
            v.selected == 0,
            v.error is None,
    {
        WorkflowsView::new()
    }
}

impl WorkflowsView {
    pub fn new() -> (v: WorkflowsView)
        ensures
            v.runs@.len() == 0,
            v.selected == 0,
            v.error is None,
    {
        WorkflowsView { runs: Vec::new(), selected: 0, error: None }
    }

    /// Replaces the runs after a successful refresh and clears the error.
    pub fn set(&mut self, runs: Vec<WorkflowRun>)
        ensures
            final(self).runs == runs,
            final(self).selected == clamped(old(self).selected as nat, runs@.len()),
            selection_ok(final(self).selected as nat, final(self).runs@.len()),
            final(self).error is None,
    {
        self.selected = clamp_selection(self.selected, runs.len());
        self.runs = runs;
        self.error = None;
    }

    pub fn set_error(&mut self, msg: String)
        ensures
            final(self).error == Some(msg),
            final(self).runs == old(self).runs,
            final(self).selected == old(self).selected,
    {
        self.error = Some(msg);
    }

    pub fn up(&mut self)
        ensures
            final(self).selected == moved_up(old(self).selected as nat),
            final(self).runs == old(self).runs,
            final(self).error == old(self).error,
    {
        self.selected = select_up(self.selected);
    }

    pub fn down(&mut self)
        ensures
            final(self).selected == moved_down(old(self).selected as nat, old(self).runs@.len()),
            final(self).runs == old(self).runs,
            final(self).error == old(self).error,
    {
        self.selected = select_down(self.selected, self.runs.len());
    }

    /// What the view shows instead of the table: the error of the last
    /// refresh, or a note that there are no runs.
    pub fn notice(&self) -> (n: Option<Span>)
        ensures
            match self.error {
                Some(e) => n matches Some(s) && s@ == (error_text(e@), Some(Tone::Bad), false),
                None => if self.runs@.len() == 0 {
                    n matches Some(s) && s@ == ("no workflow runs"@, Some(Tone::FgDim), false)
                } else {
                    n is None
                },
            },
    {
        match &self.error {
            Some(e) => Some(error_span(e)),
            None => {
                if self.runs.len() == 0 {
                    Some(styled(owned("no workflow runs"), Tone::FgDim))
                } else {
                    None
                }
            },
        }
    }

    pub fn header(&self) -> (h: Vec<String>)
        ensures
            h.deep_view() == seq!["id"@, "definition"@, "status"@, "subject"@, "age"@],
    {
        let h = labels(&["id", "definition", "status", "subject", "age"]);
        assert(h.deep_view() =~= seq!["id"@, "definition"@, "status"@, "subject"@, "age"@]);
        h
    }

    /// The table rows at time `now`, one per run, in order.
    pub fn rows(&self, now: Timestamp) -> (r: Vec<Row>)
        ensures
            r.deep_view() == self.runs@.map_values(|w: WorkflowRun| run_row(w, now)),
    {
        let mut out: Vec<Row> = Vec::new();
        let mut i: usize = 0;
        while i < self.runs.len()
            invariant
                i <= self.runs@.len(),
                out.deep_view() == self.runs@.take(i as int).map_values(
                    |w: WorkflowRun| run_row(w, now),
                ),
            decreases self.runs@.len() - i,
        {
            let w = &self.runs[i];
            let mut cells: Vec<String> = Vec::new();
            cells.push(short_id(w.id.as_str(), 14));
            cells.push(w.definition.clone());
            cells.push(status_text(w.status));
            cells.push(or_dash_string(&w.subject_id));
            cells.push(humanize_age(elapsed_seconds(now, w.started_at)));
            let row = Row { cells, tone: Some(status_color(w.status)) };
            assert(row.deep_view() =~~= run_row(*w, now));
            let ghost before = out.deep_view();
            out.push(row);
            assert(out.deep_view() =~= before.push(run_row(*w, now)));
            assert(self.runs@.take(i + 1).map_values(|x: WorkflowRun| run_row(x, now))
                =~= self.runs@.take(i as int).map_values(|x: WorkflowRun| run_row(x, now)).push(
                run_row(*w, now),
            ));
            i += 1;
        }
        assert(self.runs@.take(self.runs@.len() as int) =~= self.runs@);
        out
    }
}

} // verus!
