//! Tasks or requirements (by subject kind): id, title, status, priority
//! and assignee.
use vstd::prelude::*;
use crate::text::{owned, push_str, signed_decimal, signed_decimal_string, truncate, truncated};
use crate::views::{
    clamp_selection, clamped, dash, dash_string, error_span, error_text, labels, moved_down,
    moved_up, or_dash, or_dash_string, select_down, select_up, selection_ok, styled, Row, Span,
    Tone,
};

verus! {

#[derive(Debug, Clone, Copy, PartialEq, Eq, Structural)]
pub enum SubjectStatus {
    Ready,
    InProgress,
    Blocked,
    Done,
    Cancelled,
}

/// One subject as the view shows it.
pub struct Subject {
    pub id: String,
    pub title: String,
    pub status: SubjectStatus,
    pub priority: Option<i64>,
    pub assignee: Option<String>,
}

pub struct SubjectsView {
    pub subjects: Vec<Subject>,
    pub selected: usize,
    /// `task` or `requirement`.
    pub kind: String,
    pub error: Option<String>,
}

/// The status as the table prints it (the variant name in lower case).
pub open spec fn status_label(s: SubjectStatus) -> Seq<char> {
    match s {
        SubjectStatus::Ready => "ready"@,
        SubjectStatus::InProgress => "inprogress"@,
        SubjectStatus::Blocked => "blocked"@,
        SubjectStatus::Done => "done"@,
        SubjectStatus::Cancelled => "cancelled"@,
    }
}

fn status_text(s: SubjectStatus) -> (r: String)
    ensures
        r@ == status_label(s),
{
    match s {
        SubjectStatus::Ready => owned("ready"),
        SubjectStatus::InProgress => owned("inprogress"),
        SubjectStatus::Blocked => owned("blocked"),
        SubjectStatus::Done => owned("done"),
        SubjectStatus::Cancelled => owned("cancelled"),
    }
}

pub open spec fn status_tone(s: SubjectStatus) -> Tone {
    match s {
        SubjectStatus::Done => Tone::Good,
        SubjectStatus::Blocked | SubjectStatus::Cancelled => Tone::Bad,
        _ => Tone::Fg,
    }
}

pub fn status_color(s: SubjectStatus) -> (t: Tone)
    ensures
        t == status_tone(s),
{
    match s {
        SubjectStatus::Done => Tone::Good,
        SubjectStatus::Blocked | SubjectStatus::Cancelled => Tone::Bad,
        SubjectStatus::InProgress | SubjectStatus::Ready => Tone::Fg,
    }
}

/// A priority, or `-` when unset.
pub open spec fn priority_text(p: Option<i64>) -> Seq<char> {
    match p {
        Some(v) => signed_decimal(v as int),
        None => dash(),
    }
}

/// The table row of a subject.
pub open spec fn subject_row(s: Subject) -> (Seq<Seq<char>>, Option<Tone>) {
    (
        seq![
            s.id@,
            truncated(s.title@, 40),
            status_label(s.status),
            priority_text(s.priority),
            or_dash(s.assignee),
        ],
        Some(status_tone(s.status)),
    )
}

/// `" Subjects (kind=<kind>)  tk=task tr=requirement "`.
pub open spec fn subjects_title(kind: Seq<char>) -> Seq<char> {
    " Subjects (kind="@ + kind + ")  tk=task tr=requirement "@
}

impl Default for SubjectsView {
    fn default() -> (v: Self)
        ensures
            v.subjects@.len() == 0,
            v.selected == 0,
            v.kind@ == "task"@,
            v.error is None,
    {
        SubjectsView::new()
    }
}

impl SubjectsView {
    /// An empty view listing tasks.
    pub fn new() -> (v: SubjectsView)
        ensures
            v.subjects@.len() == 0,
            v.selected == 0,
            v.kind@ == "task"@,
            v.error is None,
    {
        SubjectsView { subjects: Vec::new(), selected: 0, kind: owned("task"), error: None }
    }

    /// Switches the subject kind and goes back to the first row.
    pub fn set_kind(&mut self, k: &str)
        ensures
            final(self).kind@ == k@,
            final(self).selected == 0,
            final(self).subjects == old(self).subjects,
            final(self).error == old(self).error,
    {
        self.kind = owned(k);
        self.selected = 0;
    }

    pub fn title(&self) -> (t: String)
        ensures
            t@ == subjects_title(self.kind@),
    {
        let mut t = owned(" Subjects (kind=");
        push_str(&mut t, self.kind.as_str());
        push_str(&mut t, ")  tk=task tr=requirement ");
        t
    }

    /// Replaces the subjects after a successful refresh and clears the error.
    pub fn set(&mut self, subjects: Vec<Subject>)
        ensures
            final(self).subjects == subjects,
            final(self).selected == clamped(old(self).selected as nat, subjects@.len()),
            selection_ok(final(self).selected as nat, final(self).subjects@.len()),
            final(self).error is None,
            final(self).kind == old(self).kind,
    {
        self.selected = clamp_selection(self.selected, subjects.len());
        self.subjects = subjects;
        self.error = None;
    }

    pub fn set_error(&mut self, msg: String)
        ensures
            final(self).error == Some(msg),
            final(self).subjects == old(self).subjects,
            final(self).selected == old(self).selected,
            final(self).kind == old(self).kind,
    {
        self.error = Some(msg);
    }

    pub fn up(&mut self)
        ensures
            final(self).selected == moved_up(old(self).selected as nat),
            final(self).subjects == old(self).subjects,
            final(self).error == old(self).error,
            final(self).kind == old(self).kind,
    {
        self.selected = select_up(self.selected);
    }

    pub fn down(&mut self)
        ensures
            final(self).selected == moved_down(old(self).selected as nat, old(self).subjects@.len()),
            final(self).subjects == old(self).subjects,
            final(self).error == old(self).error,
            final(self).kind == old(self).kind,
    {
        self.selected = select_down(self.selected, self.subjects.len());
    }

    /// What the view shows instead of the table: the error of the last
    /// refresh, or a note that there are no subjects.
    pub fn notice(&self) -> (n: Option<Span>)
        ensures
            match self.error {
                Some(e) => n matches Some(s) && s@ == (error_text(e@), Some(Tone::Bad), false),
                None => if self.subjects@.len() == 0 {
                    n matches Some(s) && s@ == ("no subjects"@, Some(Tone::FgDim), false)
                } else {
                    n is None
                },
            },
    {
        match &self.error {
            Some(e) => Some(error_span(e)),
            None => {
                if self.subjects.len() == 0 {
                    Some(styled(owned("no subjects"), Tone::FgDim))
                } else {
                    None
                }
            },
        }
    }

    pub fn header(&self) -> (h: Vec<String>)
        ensures
            h.deep_view() == seq!["id"@, "title"@, "status"@, "priority"@, "assignee"@],
    {
        let h = labels(&["id", "title", "status", "priority", "assignee"]);
        assert(h.deep_view() =~= seq!["id"@, "title"@, "status"@, "priority"@, "assignee"@]);
        h
    }

    /// The table rows, one per subject, in order.
    pub fn rows(&self) -> (r: Vec<Row>)
        ensures
            r.deep_view() == self.subjects@.map_values(|w: Subject| subject_row(w)),
    {
        let mut out: Vec<Row> = Vec::new();
        let mut i: usize = 0;
        while i < self.subjects.len()
            invariant
                i <= self.subjects@.len(),
                out.deep_view() == self.subjects@.take(i as int).map_values(
                    |w: Subject| subject_row(w),
                ),
            decreases self.subjects@.len() - i,
        {
            let w = &self.subjects[i];
            let mut cells: Vec<String> = Vec::new();
            cells.push(w.id.clone());
            cells.push(truncate(w.title.as_str(), 40));
            cells.push(status_text(w.status));
            cells.push(
                match w.priority {
                    Some(p) => signed_decimal_string(p),
                    None => dash_string(),
                },
            );
            cells.push(or_dash_string(&w.assignee));
            let row = Row { cells, tone: Some(status_color(w.status)) };
            assert(row.deep_view() =~~= subject_row(*w));
            let ghost before = out.deep_view();
            out.push(row);
            assert(out.deep_view() =~= before.push(subject_row(*w)));
            assert(self.subjects@.take(i + 1).map_values(|x: Subject| subject_row(x))
                =~= self.subjects@.take(i as int).map_values(|x: Subject| subject_row(x)).push(
                subject_row(*w),
            ));
            i += 1;
        }
        assert(self.subjects@.take(self.subjects@.len() as int) =~= self.subjects@);
        out
    }
}

} // verus!
