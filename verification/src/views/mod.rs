//! The seven views, and the pieces of screen content they are made of:
//! spans of text with a colour role, table rows, and the selection rule
//! that all list views share.
use vstd::prelude::*;
use crate::text::{decimal, owned, push_char, push_decimal, push_str};

pub mod health;
pub mod logs;
pub mod plugins;
pub mod queue;
pub mod subjects;
pub mod workflows;

verus! {

#[derive(Debug, Clone, Copy, PartialEq, Eq, Structural)]
pub enum ViewId {
    Workflows,
    Subjects,
    Queue,
    Health,
    Logs,
    Cost,
    Plugins,
}

/// The position of a view in the tab bar (0..=6).
pub open spec fn view_index(v: ViewId) -> nat {
    match v {
        ViewId::Workflows => 0,
        ViewId::Subjects => 1,
        ViewId::Queue => 2,
        ViewId::Health => 3,
        ViewId::Logs => 4,
        ViewId::Cost => 5,
        ViewId::Plugins => 6,
    }
}

/// The view at position `idx`, the last one for anything past the end.
pub open spec fn view_at(idx: nat) -> ViewId {
    if idx == 0 {
        ViewId::Workflows
    } else if idx == 1 {
        ViewId::Subjects
    } else if idx == 2 {
        ViewId::Queue
    } else if idx == 3 {
        ViewId::Health
    } else if idx == 4 {
        ViewId::Logs
    } else if idx == 5 {
        ViewId::Cost
    } else {
        ViewId::Plugins
    }
}

impl ViewId {
    pub fn from_idx(idx: usize) -> (v: ViewId)
        ensures
            v == view_at(idx as nat),
            view_index(v) == if idx < 6 { idx as nat } else { 6 },
    {
        if idx == 0 {
            ViewId::Workflows
        } else if idx == 1 {
            ViewId::Subjects
        } else if idx == 2 {
            ViewId::Queue
        } else if idx == 3 {
            ViewId::Health
        } else if idx == 4 {
            ViewId::Logs
        } else if idx == 5 {
            ViewId::Cost
        } else {
            ViewId::Plugins
        }
    }

    pub fn idx(self) -> (i: usize)
        ensures
            i == view_index(self),
            view_at(i as nat) == self,
    {
        match self {
            ViewId::Workflows => 0,
            ViewId::Subjects => 1,
            ViewId::Queue => 2,
            ViewId::Health => 3,
            ViewId::Logs => 4,
            ViewId::Cost => 5,
            ViewId::Plugins => 6,
        }
    }
}

/// Law: a view's index leads back to the view, and every index past the
/// last view clamps to the last one.
pub proof fn lemma_view_index_roundtrip(v: ViewId, n: nat)
    ensures
        view_at(view_index(v)) == v,
        view_index(v) < 7,
        n >= 6 ==> view_at(n) == ViewId::Plugins,
        n < 7 ==> view_index(view_at(n)) == n,
{
}

/// Colour roles of the theme; the application maps them to colours.
#[derive(Debug, Clone, Copy, PartialEq, Eq, Structural)]
pub enum Tone {
    Fg,
    FgDim,
    Accent,
    Good,
    Warn,
    Bad,
}

/// A piece of text with an optional colour role (none: the default style).
pub struct Span {
    pub text: String,
    pub tone: Option<Tone>,
    pub bold: bool,
}

impl View for Span {
    type V = (Seq<char>, Option<Tone>, bool);

    open spec fn view(&self) -> (Seq<char>, Option<Tone>, bool) {
        (self.text@, self.tone, self.bold)
    }
}

impl DeepView for Span {
    type V = (Seq<char>, Option<Tone>, bool);

    open spec fn deep_view(&self) -> (Seq<char>, Option<Tone>, bool) {
        (self.text@, self.tone, self.bold)
    }
}

pub fn styled(text: String, tone: Tone) -> (s: Span)
    ensures
        s@ == (text@, Some(tone), false),
{
    Span { text, tone: Some(tone), bold: false }
}

pub fn raw(text: String) -> (s: Span)
    ensures
        s@ == (text@, None::<Tone>, false),
{
    Span { text, tone: None, bold: false }
}

/// `"error: <message>"`.
pub open spec fn error_text(msg: Seq<char>) -> Seq<char> {
    seq!['e', 'r', 'r', 'o', 'r', ':', ' '] + msg
}

/// The one-line notice a view shows in place of its content when its last
/// refresh failed.
pub fn error_span(msg: &String) -> (s: Span)
    ensures
        s@ == (error_text(msg@), Some(Tone::Bad), false),
{
    let prefix = "error: ";
    proof {
        reveal_strlit("error: ");
    }
    assert(prefix@ =~= seq!['e', 'r', 'r', 'o', 'r', ':', ' ']);
    let mut t = owned(prefix);
    push_str(&mut t, msg.as_str());
    styled(t, Tone::Bad)
}

/// A table row: its cells and the colour role of the whole row.
pub struct Row {
    pub cells: Vec<String>,
    pub tone: Option<Tone>,
}

impl DeepView for Row {
    type V = (Seq<Seq<char>>, Option<Tone>);

    open spec fn deep_view(&self) -> (Seq<Seq<char>>, Option<Tone>) {
        (self.cells.deep_view(), self.tone)
    }
}

/// Owned copies of column labels.
pub fn labels(names: &[&str]) -> (r: Vec<String>)
    ensures
        r@.len() == names@.len(),
        forall|i: int| 0 <= i < names@.len() ==> #[trigger] r@[i]@ == names@[i]@,
{
    let mut r: Vec<String> = Vec::new();
    let mut i: usize = 0;
    while i < names.len()
        invariant
            i <= names@.len(),
            r@.len() == i,
            forall|j: int| 0 <= j < i ==> #[trigger] r@[j]@ == names@[j]@,
        decreases names@.len() - i,
    {
        r.push(owned(names[i]));
        i += 1;
    }
    r
}

// ---------------------------------------------------------------------------
// Ages
// ---------------------------------------------------------------------------

/// A point in time: Unix seconds and the nanoseconds within that second.
#[derive(Debug, Clone, Copy, PartialEq, Eq, Structural)]
pub struct Timestamp {
    pub secs: i64,
    pub nanos: u32,
}

/// Nanoseconds from `start` to `now`.
pub open spec fn span_nanos(now: Timestamp, start: Timestamp) -> int {
    (now.secs - start.secs) * 1_000_000_000 + (now.nanos - start.nanos)
}

/// Whole seconds from `start` to `now`, truncated; none when `now` is not
/// later (clamped to the `i64` range, which real timestamps never leave).
pub open spec fn elapsed(now: Timestamp, start: Timestamp) -> int {
    let d = span_nanos(now, start);
    if d <= 0 {
        0
    } else if d / 1_000_000_000 > i64::MAX {
        i64::MAX as int
    } else {
        d / 1_000_000_000
    }
}

pub fn elapsed_seconds(now: Timestamp, start: Timestamp) -> (r: i64)
    ensures
        r == elapsed(now, start),
{
    let secs: i128 = (now.secs as i128) - (start.secs as i128);
    let d: i128 = secs * 1_000_000_000 + ((now.nanos as i128) - (start.nanos as i128));
    if d <= 0 {
        0
    } else if d / 1_000_000_000 > (i64::MAX as i128) {
        i64::MAX
    } else {
        (d / 1_000_000_000) as i64
    }
}

/// An age in the largest whole unit: `42s`, `5m`, `3h`, `2d`
/// (negative ages count as zero).
pub open spec fn age_text(secs: int) -> Seq<char> {
    let s: nat = if secs < 0 {
        0
    } else {
        secs as nat
    };
    if s < 60 {
        decimal(s).push('s')
    } else if s < 3600 {
        decimal(s / 60).push('m')
    } else if s < 86400 {
        decimal(s / 3600).push('h')
    } else {
        decimal(s / 86400).push('d')
    }
}

pub fn humanize_age(secs: i64) -> (r: String)
    ensures
        r@ == age_text(secs as int),
{
    let s: u64 = if secs < 0 {
        0
    } else {
        secs as u64
    };
    let mut r = String::new();
    if s < 60 {
        push_decimal(&mut r, s);
        push_char(&mut r, 's');
    } else if s < 3600 {
        push_decimal(&mut r, s / 60);
        push_char(&mut r, 'm');
    } else if s < 86400 {
        push_decimal(&mut r, s / 3600);
        push_char(&mut r, 'h');
    } else {
        push_decimal(&mut r, s / 86400);
        push_char(&mut r, 'd');
    }
    r
}

/// `"-"`, shown for a missing value.
pub open spec fn dash() -> Seq<char> {
    seq!['-']
}

pub fn dash_string() -> (r: String)
    ensures
        r@ == dash(),
{
    proof {
        reveal_strlit("-");
    }
    owned("-")
}

/// The value, or `"-"` when there is none.
pub open spec fn or_dash(v: Option<String>) -> Seq<char> {
    match v {
        Some(s) => s@,
        None => dash(),
    }
}

pub fn or_dash_string(v: &Option<String>) -> (r: String)
    ensures
        r@ == or_dash(*v),
{
    match v {
        Some(s) => s.clone(),
        None => dash_string(),
    }
}

// ---------------------------------------------------------------------------
// Selection in list views
// ---------------------------------------------------------------------------

/// The selection invariant of a list view: the selected row exists
/// whenever the list is not empty.
pub open spec fn selection_ok(selected: nat, len: nat) -> bool {
    len == 0 || selected < len
}

/// Selection after the list is replaced by one of `len` rows: moved to the
/// last row when it fell off the end of a non-empty list.
pub open spec fn clamped(selected: nat, len: nat) -> nat {
    if selected >= len && len > 0 {
        (len - 1) as nat
    } else {
        selected
    }
}

/// Selection after moving up: one row up, not past the first.
pub open spec fn moved_up(selected: nat) -> nat {
    if selected > 0 {
        (selected - 1) as nat
    } else {
        selected
    }
}

/// Selection after moving down: one row down, not past the last.
pub open spec fn moved_down(selected: nat, len: nat) -> nat {
    if selected + 1 < len {
        selected + 1
    } else {
        selected
    }
}

pub fn clamp_selection(selected: usize, len: usize) -> (r: usize)
    ensures
        r == clamped(selected as nat, len as nat),
        selection_ok(r as nat, len as nat),
{
    if selected >= len && len > 0 {
        len - 1
    } else {
        selected
    }
}

pub fn select_up(selected: usize) -> (r: usize)
    ensures
        r == moved_up(selected as nat),
{
    if selected > 0 {
        selected - 1
    } else {
        selected
    }
}

pub fn select_down(selected: usize, len: usize) -> (r: usize)
    ensures
        r == moved_down(selected as nat, len as nat),
        selection_ok(selected as nat, len as nat) ==> selection_ok(r as nat, len as nat),
{
    if selected < len && len - selected > 1 {
        selected + 1
    } else {
        selected
    }
}

/// Law: replacing the list establishes the selection invariant, and moving
/// up or down keeps it.
pub proof fn lemma_selection_kept(selected: nat, len: nat)
    ensures
        selection_ok(clamped(selected, len), len),
        selection_ok(selected, len) ==> selection_ok(moved_up(selected), len),
        selection_ok(selected, len) ==> selection_ok(moved_down(selected, len), len),
        moved_down(selected, len) <= selected + 1,
        moved_up(selected) + 1 >= selected,
{
}

/// Law: moving down and then up returns to the same row whenever the move
/// down was possible; moving up and then down does, whenever the move up
/// was possible and the list is the same.
pub proof fn lemma_up_down_inverse(selected: nat, len: nat)
    ensures
        selected + 1 < len ==> moved_up(moved_down(selected, len)) == selected,
        selected > 0 && selected < len ==> moved_down(moved_up(selected), len) == selected,
{
}

} // verus!
