//! The two-line header above every view: daemon status, active workflow
//! count, queue depth, top-spend workflow, and the tab bar.
use vstd::prelude::*;
use crate::text::{decimal, owned, push_decimal, push_str};
use crate::views::health::{health_label, health_tone, DaemonHealthStatus, LineView};
use crate::views::{raw, styled, Span, Tone};

verus! {

pub struct StickyHeaderState {
    pub daemon_connected: bool,
    pub daemon_health: Option<DaemonHealthStatus>,
    pub active_workflows: usize,
    pub queue_depth: usize,
    /// The workflow that spent most today, with its cost in US dollars
    /// already rendered with two decimals.
    pub top_spend_workflow: Option<(String, String)>,
    pub active_view: usize,
}

impl StickyHeaderState {
    pub fn new() -> (s: StickyHeaderState)
        ensures
            !s.daemon_connected,
            s.daemon_health is None,
            s.active_workflows == 0,
            s.queue_depth == 0,
            s.top_spend_workflow is None,
            s.active_view == 0,
    {
        StickyHeaderState {
            daemon_connected: false,
            daemon_health: None,
            active_workflows: 0,
            queue_depth: 0,
            top_spend_workflow: None,
            active_view: 0,
        }
    }
}

/// The status dot: disconnected wins over any health report.
pub open spec fn status_dot(connected: bool, health: Option<DaemonHealthStatus>) -> (
    Seq<char>,
    Tone,
) {
    if !connected {
        ("\u{2b24} disconnected"@, Tone::Bad)
    } else {
        match health {
            Some(DaemonHealthStatus::Healthy) => ("\u{2b24} healthy"@, Tone::Good),
            Some(DaemonHealthStatus::Degraded) => ("\u{2b24} degraded"@, Tone::Warn),
            Some(DaemonHealthStatus::Unhealthy) => ("\u{2b24} unhealthy"@, Tone::Bad),
            Some(DaemonHealthStatus::Down) => ("\u{2b24} down"@, Tone::Bad),
            None => ("\u{2b24} unknown"@, Tone::FgDim),
        }
    }
}

fn dot(connected: bool, health: Option<DaemonHealthStatus>) -> (r: Span)
    ensures
        r@ == (status_dot(connected, health).0, Some(status_dot(connected, health).1), false),
{
    if !connected {
        styled(owned("\u{2b24} disconnected"), Tone::Bad)
    } else {
        match health {
            Some(DaemonHealthStatus::Healthy) => styled(owned("\u{2b24} healthy"), Tone::Good),
            Some(DaemonHealthStatus::Degraded) => styled(owned("\u{2b24} degraded"), Tone::Warn),
            Some(DaemonHealthStatus::Unhealthy) => styled(owned("\u{2b24} unhealthy"), Tone::Bad),
            Some(DaemonHealthStatus::Down) => styled(owned("\u{2b24} down"), Tone::Bad),
            None => styled(owned("\u{2b24} unknown"), Tone::FgDim),
        }
    }
}

/// Law: while connected, the status dot names the health the daemon
/// reports, in that health's colour role (the one the health view uses), so
/// only a healthy daemon shows the good (green) tone and a degraded one the
/// warn (yellow) tone; while disconnected it says so in the bad tone,
/// whatever health was last reported.
pub proof fn lemma_dot_names_health(h: DaemonHealthStatus, last: Option<DaemonHealthStatus>)
    ensures
        status_dot(true, Some(h)).0 == "\u{2b24} "@ + health_label(h),
        status_dot(true, Some(h)).1 == health_tone(h),
        (status_dot(true, Some(h)).1 == Tone::Good) <==> h == DaemonHealthStatus::Healthy,
        (status_dot(true, Some(h)).1 == Tone::Warn) <==> h == DaemonHealthStatus::Degraded,
        status_dot(false, last) == ("\u{2b24} disconnected"@, Tone::Bad),
{
    reveal_strlit("\u{2b24} ");
    reveal_strlit("healthy");
    reveal_strlit("degraded");
    reveal_strlit("unhealthy");
    reveal_strlit("down");
    reveal_strlit("\u{2b24} healthy");
    reveal_strlit("\u{2b24} degraded");
    reveal_strlit("\u{2b24} unhealthy");
    reveal_strlit("\u{2b24} down");
    match h {
        DaemonHealthStatus::Healthy => {
            assert("\u{2b24} healthy"@ =~= "\u{2b24} "@ + "healthy"@);
        },
        DaemonHealthStatus::Degraded => {
            assert("\u{2b24} degraded"@ =~= "\u{2b24} "@ + "degraded"@);
        },
        DaemonHealthStatus::Unhealthy => {
            assert("\u{2b24} unhealthy"@ =~= "\u{2b24} "@ + "unhealthy"@);
        },
        DaemonHealthStatus::Down => {
            assert("\u{2b24} down"@ =~= "\u{2b24} "@ + "down"@);
        },
    }
}

/// Law: the header's second span is that status dot, for every state.
pub proof fn lemma_header_shows_dot(s: StickyHeaderState)
    ensures
        header_lines(s)[0][1] == (
            status_dot(s.daemon_connected, s.daemon_health).0,
            Some(status_dot(s.daemon_connected, s.daemon_health).1),
            false,
        ),
{
}

pub open spec fn gap() -> (Seq<char>, Option<Tone>, bool) {
    ("  "@, None, false)
}

/// `top$: <id> $<cost>`, or `top$: --` without cost data.
pub open spec fn top_spend_text(top: Option<(String, String)>) -> Seq<char> {
    match top {
        Some((id, cost)) => "top$: "@ + id@ + " $"@ + cost@,
        None => "top$: --"@,
    }
}

/// The first header line.
pub open spec fn status_line(s: StickyHeaderState) -> LineView {
    seq![
        ("animus-tui "@, Some(Tone::Accent), false),
        (status_dot(s.daemon_connected, s.daemon_health).0, Some(
            status_dot(s.daemon_connected, s.daemon_health).1,
        ), false),
        gap(),
        ("wf:"@ + decimal(s.active_workflows as nat), Some(Tone::Fg), false),
        gap(),
        ("q:"@ + decimal(s.queue_depth as nat), Some(Tone::Fg), false),
        gap(),
        (top_spend_text(s.top_spend_workflow), Some(Tone::FgDim), false),
    ]
}

/// Tab label of view `i` (0..=6).
pub open spec fn tab_name(i: int) -> Seq<char> {
    if i == 0 {
        "1:wf"@
    } else if i == 1 {
        "2:subj"@
    } else if i == 2 {
        "3:queue"@
    } else if i == 3 {
        "4:daemon"@
    } else if i == 4 {
        "5:logs"@
    } else if i == 5 {
        "6:cost"@
    } else {
        "7:plugins"@
    }
}

fn tab_name_str(i: usize) -> (r: &'static str)
    ensures
        r@ == tab_name(i as int),
{
    if i == 0 {
        "1:wf"
    } else if i == 1 {
        "2:subj"
    } else if i == 2 {
        "3:queue"
    } else if i == 3 {
        "4:daemon"
    } else if i == 4 {
        "5:logs"
    } else if i == 5 {
        "6:cost"
    } else {
        "7:plugins"
    }
}

/// The `j`-th span of the tab bar: tabs at even positions, single spaces
/// between them; the active tab is accented and bold, the others dimmed.
pub open spec fn tab_bar_span(j: int, active: nat) -> (Seq<char>, Option<Tone>, bool) {
    if j % 2 == 0 {
        if j / 2 == active {
            (tab_name(j / 2), Some(Tone::Accent), true)
        } else {
            (tab_name(j / 2), Some(Tone::FgDim), false)
        }
    } else {
        (" "@, None, false)
    }
}

/// The second header line: the seven tabs.
pub open spec fn tab_line(active: nat) -> LineView {
    Seq::new(13, |j: int| tab_bar_span(j, active))
}

/// Law: the tab bar has seven tabs separated by spaces, and exactly the
/// tab of the active view is bold (none when the index is past the last).
pub proof fn lemma_one_bold_tab(active: nat)
    ensures
        tab_line(active).len() == 13,
        forall|j: int| 0 <= j < 13 ==> (#[trigger] tab_line(active)[j]).2 == (j % 2 == 0 && j / 2 == active),
        active < 7 ==> tab_line(active)[2 * active as int].0 == tab_name(active as int),
{
}

/// Both header lines.
pub open spec fn header_lines(s: StickyHeaderState) -> Seq<LineView> {
    seq![status_line(s), tab_line(s.active_view as nat)]
}

/// The content of the sticky header.
pub fn sticky_header_lines(state: &StickyHeaderState) -> (r: Vec<Vec<Span>>)
    ensures
        r.deep_view() == header_lines(*state),
{
    let mut l1: Vec<Span> = Vec::new();
    l1.push(styled(owned("animus-tui "), Tone::Accent));
    l1.push(dot(state.daemon_connected, state.daemon_health));
    l1.push(raw(owned("  ")));
    let mut wf = owned("wf:");
    push_decimal(&mut wf, state.active_workflows as u64);
    l1.push(styled(wf, Tone::Fg));
    l1.push(raw(owned("  ")));
    let mut q = owned("q:");
    push_decimal(&mut q, state.queue_depth as u64);
    l1.push(styled(q, Tone::Fg));
    l1.push(raw(owned("  ")));
    let top = match &state.top_spend_workflow {
        Some((id, cost)) => {
            let mut t = owned("top$: ");
            push_str(&mut t, id.as_str());
            push_str(&mut t, " $");
            push_str(&mut t, cost.as_str());
            t
        },
        None => owned("top$: --"),
    };
    l1.push(styled(top, Tone::FgDim));
    assert(l1.deep_view() =~~= status_line(*state));
    let active = state.active_view;
    let mut l2: Vec<Span> = Vec::new();
    let mut i: usize = 0;
    while i < 7
        invariant
            i <= 7,
            active == state.active_view,
            l2.deep_view() =~~= Seq::new(
                if i == 0 {
                    0
                } else {
                    (2 * i - 1) as nat
                },
                |j: int| tab_bar_span(j, active as nat),
            ),
        decreases 7 - i,
    {
        let ghost prev = l2.deep_view();
        if i > 0 {
            l2.push(raw(owned(" ")));
            assert(((2 * i - 1) as int) % 2 == 1);
            assert(l2.deep_view() =~~= prev.push(tab_bar_span((2 * i - 1) as int, active as nat)));
        }
        let ghost mid = l2.deep_view();
        assert(((2 * i) as int) % 2 == 0 && ((2 * i) as int) / 2 == i);
        let name = owned(tab_name_str(i));
        if i == active {
            l2.push(Span { text: name, tone: Some(Tone::Accent), bold: true });
        } else {
            l2.push(styled(name, Tone::FgDim));
        }
        assert(l2.deep_view() =~~= mid.push(tab_bar_span((2 * i) as int, active as nat)));
        assert(l2.deep_view() =~~= Seq::new((2 * i + 1) as nat, |j: int| tab_bar_span(j, active as nat)));
        i += 1;
    }
    let mut out: Vec<Vec<Span>> = Vec::new();
    out.push(l1);
    out.push(l2);
    assert(out.deep_view() =~~= header_lines(*state));
    out
}

} // verus!
