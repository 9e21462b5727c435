//! The UI state machine: what a key press does to the state, and how each
//! answer of the daemon is folded into the views and the header. The
//! application crate owns the daemon connection: it performs the refresh
//! that a key press asks for and hands every answer to the `apply_*`
//! functions here.
use vstd::prelude::*;
use crate::keybinds::{
    action_after_t, action_for, translate, translate_after_t, Action, KeyCode, KeyEvent,
};
use crate::control_client::{
    dot_animus, join_path, path_join, repository_scope_named, scope_text, sha256_digest,
};
use vstd::utf8::encode_utf8;
use crate::text::{owned, push_str};
use crate::views::health::{DaemonHealth, DaemonStatus, HealthView};
use crate::views::logs::{next_filter, LogsView};
use crate::views::plugins::{PluginInfo, PluginsView};
use crate::views::queue::{depth, queue_depth, QueueEntry, QueueView};
use crate::views::subjects::{Subject, SubjectsView};
use crate::views::workflows::{active_count, count_active, WorkflowRun, WorkflowsView};
use crate::views::{
    clamped, lemma_selection_kept, moved_down, moved_up, selection_ok, view_at, view_index, Span,
    ViewId,
};
use crate::widgets::sticky_header::{header_lines, sticky_header_lines, StickyHeaderState};

verus! {

/// How many workflow runs a refresh asks for.
pub const WORKFLOW_LIST_LIMIT: u32 = 100;

/// How many queue entries a refresh asks for.
pub const QUEUE_LIST_LIMIT: u32 = 200;

pub struct App {
    pub view: ViewId,
    pub header: StickyHeaderState,
    pub workflows: WorkflowsView,
    pub subjects: SubjectsView,
    pub queue: QueueView,
    pub health: HealthView,
    pub logs: LogsView,
    pub plugins: PluginsView,
    pub help_open: bool,
    pub awaiting_t_prefix: bool,
    pub quit: bool,
}

/// What a refresh asks the daemon for, beyond the fixed requests.
pub struct RefreshPlan {
    /// At most this many workflow runs.
    pub workflow_limit: u32,
    /// At most this many queue entries.
    pub queue_limit: u32,
    /// Subjects of this kind.
    pub subject_kind: String,
}

/// The cost state directory found at start-up: the scope directory of the
/// daemon's project, when both the home directory and the project root are
/// known. The project is given as its canonical path (as text) and its file
/// name when that name is text.
pub fn scope_root_for(home: Option<&str>, project: Option<(&str, Option<&str>)>) -> (r: Option<
    String,
>)
    ensures
        match (home, project) {
            (Some(h), Some((p, name))) => r matches Some(d) && d@ == path_join(
                path_join(h@, dot_animus()),
                scope_text(
                    match name {
                        Some(n) => Some(n@),
                        None => None,
                    },
                    sha256_digest(encode_utf8(p@)),
                ),
            ),
            _ => r is None,
        },
{
    match (home, project) {
        (Some(h), Some((p, name))) => {
            let ao = join_path(h, ".animus");
            proof {
                reveal_strlit(".animus");
            }
            assert(".animus"@ =~= dot_animus());
            let scope = repository_scope_named(p, name);
            Some(join_path(ao.as_str(), scope.as_str()))
        },
        _ => None,
    }
}

/// What a key press leaves for the caller to do.
#[derive(Debug, Clone, Copy, PartialEq, Eq, Structural)]
pub struct KeyOutcome {
    /// The application should exit.
    pub quit: bool,
    /// The views should be refreshed from the daemon now.
    pub refresh: bool,
}

/// Whether an action asks for a refresh from the daemon.
pub open spec fn needs_refresh(a: Action) -> bool {
    a == Action::Refresh || a == Action::SubjectKindTask || a == Action::SubjectKindRequirement
}

/// The state after moving the selection of the current view up (views
/// without a selection ignore it).
pub open spec fn after_up(s: App) -> App {
    match s.view {
        ViewId::Workflows => App {
            workflows: WorkflowsView {
                selected: moved_up(s.workflows.selected as nat) as usize,
                ..s.workflows
            },
            ..s
        },
        ViewId::Subjects => App {
            subjects: SubjectsView {
                selected: moved_up(s.subjects.selected as nat) as usize,
                ..s.subjects
            },
            ..s
        },
        ViewId::Queue => App {
            queue: QueueView { selected: moved_up(s.queue.selected as nat) as usize, ..s.queue },
            ..s
        },
        ViewId::Plugins => App {
            plugins: PluginsView {
                selected: moved_up(s.plugins.selected as nat) as usize,
                ..s.plugins
            },
            ..s
        },
        _ => s,
    }
}

/// The state after moving the selection of the current view down.
pub open spec fn after_down(s: App) -> App {
    match s.view {
        ViewId::Workflows => App {
            workflows: WorkflowsView {
                selected: moved_down(s.workflows.selected as nat, s.workflows.runs@.len()) as usize,
                ..s.workflows
            },
            ..s
        },
        ViewId::Subjects => App {
            subjects: SubjectsView {
                selected: moved_down(
                    s.subjects.selected as nat,
                    s.subjects.subjects@.len(),
                ) as usize,
                ..s.subjects
            },
            ..s
        },
        ViewId::Queue => App {
            queue: QueueView {
                selected: moved_down(s.queue.selected as nat, s.queue.entries@.len()) as usize,
                ..s.queue
            },
            ..s
        },
        ViewId::Plugins => App {
            plugins: PluginsView {
                selected: moved_down(s.plugins.selected as nat, s.plugins.plugins@.len()) as usize,
                ..s.plugins
            },
            ..s
        },
        _ => s,
    }
}

/// `post` is `pre` with the subject kind switched to `kind` and the
/// selection back on the first row.
pub open spec fn kind_switched(pre: App, post: App, kind: Seq<char>) -> bool {
    &&& post.subjects.kind@ == kind
    &&& post == App {
        subjects: SubjectsView { kind: post.subjects.kind, selected: 0, ..pre.subjects },
        ..pre
    }
}

/// What an action does to the state.
pub open spec fn dispatched(pre: App, post: App, a: Action) -> bool {
    match a {
        Action::Quit => post == App { quit: true, ..pre },
        Action::Help => post == App { help_open: true, ..pre },
        Action::Switch(n) => post == App { view: view_at(n as nat), ..pre },
        Action::Up => post == after_up(pre),
        Action::Down => post == after_down(pre),
        Action::Filter => if pre.view == ViewId::Logs {
            post == App {
                logs: LogsView { min_severity: next_filter(pre.logs.min_severity), ..pre.logs },
                ..pre
            }
        } else {
            post == pre
        },
        Action::SubjectKindTask => kind_switched(pre, post, "task"@),
        Action::SubjectKindRequirement => kind_switched(pre, post, "requirement"@),
        _ => post == pre,
    }
}

/// Ctrl-C, the signal-clean quit key.
pub open spec fn is_ctrl_c(key: KeyEvent) -> bool {
    key.ctrl && key.code == KeyCode::Char('c')
}

/// What a key press does: Ctrl-C quits from every state, closing the help
/// overlay and the `t` prefix; otherwise any key closes the help overlay; after `t` the
/// next key picks the subject kind; `t` starts the prefix; any other key
/// goes through the keymap.
pub open spec fn key_handled(pre: App, post: App, key: KeyEvent, out: KeyOutcome) -> bool {
    if is_ctrl_c(key) {
        post == App { quit: true, help_open: false, awaiting_t_prefix: false, ..pre } && out
            == KeyOutcome { quit: true, refresh: false }
    } else if pre.help_open {
        post == App { help_open: false, ..pre } && out == KeyOutcome { quit: false, refresh: false }
    } else if pre.awaiting_t_prefix {
        let cleared = App { awaiting_t_prefix: false, ..pre };
        &&& !out.quit
        &&& match action_after_t(key) {
            Some(a) => dispatched(cleared, post, a) && out.refresh == needs_refresh(a),
            None => post == cleared && !out.refresh,
        }
    } else if key.code == KeyCode::Char('t') {
        post == App { awaiting_t_prefix: true, ..pre } && out == KeyOutcome {
            quit: false,
            refresh: false,
        }
    } else {
        &&& dispatched(pre, post, action_for(key))
        &&& out.quit == post.quit
        &&& out.refresh == needs_refresh(action_for(key))
    }
}

/// `"<what>: <message>"`, the text a view shows for a failed request.
pub open spec fn failure_text(what: Seq<char>, msg: Seq<char>) -> Seq<char> {
    what + ": "@ + msg
}

fn failure(what: &str, msg: &str) -> (r: String)
    ensures
        r@ == failure_text(what@, msg@),
{
    let mut r = owned(what);
    push_str(&mut r, ": ");
    push_str(&mut r, msg);
    r
}

/// A rectangle of terminal cells.
#[derive(Debug, Clone, Copy, PartialEq, Eq, Structural)]
pub struct Area {
    pub x: u16,
    pub y: u16,
    pub width: u16,
    pub height: u16,
}

/// A `width` x `height` rectangle centred in `area`, cut to fit in it.
pub open spec fn centered(width: u16, height: u16, area: Area) -> Area {
    Area {
        x: (area.x + (if area.width > width { area.width - width } else { 0 }) / 2) as u16,
        y: (area.y + (if area.height > height { area.height - height } else { 0 }) / 2) as u16,
        width: if width < area.width { width } else { area.width },
        height: if height < area.height { height } else { area.height },
    }
}

pub open spec fn centered_fits(width: u16, height: u16, area: Area) -> bool {
    &&& area.x + (if area.width > width { area.width - width } else { 0 }) / 2 <= u16::MAX
    &&& area.y + (if area.height > height { area.height - height } else { 0 }) / 2 <= u16::MAX
}

/// Centres a popup of `width` x `height` cells in `area`.
pub fn centered_rect(width: u16, height: u16, area: Area) -> (r: Area)
    requires
        centered_fits(width, height, area),
    ensures
        r == centered(width, height, area),
        area.x <= r.x && r.x + r.width <= area.x + area.width,
        area.y <= r.y && r.y + r.height <= area.y + area.height,
{
    let x = area.x + area.width.saturating_sub(width) / 2;
    let y = area.y + area.height.saturating_sub(height) / 2;
    let w = if width < area.width {
        width
    } else {
        area.width
    };
    let h = if height < area.height {
        height
    } else {
        area.height
    };
    Area { x, y, width: w, height: h }
}

/// The footer line.
pub fn footer_text() -> (r: String)
    ensures
        r@ == "1-7 view | hjkl move | r refresh | f filter (logs) | tk/tr subject kind | ? help | q quit"@,
{
    owned("1-7 view | hjkl move | r refresh | f filter (logs) | tk/tr subject kind | ? help | q quit")
}

/// The prompt shown while the `t` prefix waits for its second key.
pub fn prefix_prompt() -> (r: String)
    ensures
        r@ == "t\u{2026}  (k=task, r=requirement)"@,
{
    owned("t\u{2026}  (k=task, r=requirement)")
}

/// The lines of the help overlay.
pub fn help_lines() -> (r: Vec<String>)
    ensures
        r.deep_view() == seq![
            " Animus TUI \u{2014} help (v0.1) "@,
            ""@,
            " 1..7      switch view"@,
            " h j k l   move (left/down/up/right)"@,
            " f         cycle severity filter (logs view)"@,
            " tk        subjects \u{2192} task kind"@,
            " tr        subjects \u{2192} requirement kind"@,
            " r         force refresh"@,
            " ?         this help (any key to close)"@,
            " q / Ctrl-C quit"@,
            ""@,
            " v0.2 will add: Enter (detail pane), / (search), Esc (back)"@,
        ],
{
    let mut r: Vec<String> = Vec::new();
    r.push(owned(" Animus TUI \u{2014} help (v0.1) "));
    r.push(owned(""));
    r.push(owned(" 1..7      switch view"));
    r.push(owned(" h j k l   move (left/down/up/right)"));
    r.push(owned(" f         cycle severity filter (logs view)"));
    r.push(owned(" tk        subjects \u{2192} task kind"));
    r.push(owned(" tr        subjects \u{2192} requirement kind"));
    r.push(owned(" r         force refresh"));
    r.push(owned(" ?         this help (any key to close)"));
    r.push(owned(" q / Ctrl-C quit"));
    r.push(owned(""));
    r.push(owned(" v0.2 will add: Enter (detail pane), / (search), Esc (back)"));
    assert(r.deep_view() =~= seq![
        " Animus TUI \u{2014} help (v0.1) "@,
        ""@,
        " 1..7      switch view"@,
        " h j k l   move (left/down/up/right)"@,
        " f         cycle severity filter (logs view)"@,
        " tk        subjects \u{2192} task kind"@,
        " tr        subjects \u{2192} requirement kind"@,
        " r         force refresh"@,
        " ?         this help (any key to close)"@,
        " q / Ctrl-C quit"@,
        ""@,
        " v0.2 will add: Enter (detail pane), / (search), Esc (back)"@,
    ]);
    r
}

/// What the daemon status answer does: the header follows `running`, the
/// health view keeps the status; a failure disconnects the header and
/// shows `daemon_status: <error>`.
pub open spec fn status_applied(pre: App, post: App, res: Result<DaemonStatus, String>) -> bool {
    match res {
        Ok(s) => post == App {
            header: StickyHeaderState { daemon_connected: s.running, ..pre.header },
            health: HealthView { status: Some(s), ..pre.health },
            ..pre
        },
        Err(e) => {
            &&& post.health.error matches Some(m) && m@ == failure_text("daemon_status"@, e@)
            &&& post == App {
                header: StickyHeaderState { daemon_connected: false, ..pre.header },
                health: HealthView { error: post.health.error, ..pre.health },
                ..pre
            }
        },
    }
}

/// What the daemon health answer does: the header shows the overall
/// health; the health view takes the report only once a status is known.
pub open spec fn health_applied(pre: App, post: App, res: Result<DaemonHealth, String>) -> bool {
    match res {
        Ok(h) => post == App {
            header: StickyHeaderState { daemon_health: Some(h.status), ..pre.header },
            health: if pre.health.status is Some {
                HealthView { health: Some(h), error: None, ..pre.health }
            } else {
                pre.health
            },
            ..pre
        },
        Err(e) => {
            &&& post.health.error matches Some(m) && m@ == failure_text("daemon_health"@, e@)
            &&& post == App {
                header: StickyHeaderState { daemon_health: None, ..pre.header },
                health: HealthView { error: post.health.error, ..pre.health },
                ..pre
            }
        },
    }
}

/// What the workflow list answer does: the runs replace the list (the
/// selection is clamped) and the header counts the active ones; a failure
/// shows `workflow_list: <error>`.
pub open spec fn workflows_applied(pre: App, post: App, res: Result<Vec<WorkflowRun>, String>) -> bool {
    match res {
        Ok(runs) => post == App {
            header: StickyHeaderState { active_workflows: active_count(runs@) as usize, ..pre.header },
            workflows: WorkflowsView {
                runs,
                selected: clamped(pre.workflows.selected as nat, runs@.len()) as usize,
                error: None,
            },
            ..pre
        },
        Err(e) => {
            &&& post.workflows.error matches Some(m) && m@ == failure_text("workflow_list"@, e@)
            &&& post == App {
                workflows: WorkflowsView { error: post.workflows.error, ..pre.workflows },
                ..pre
            }
        },
    }
}

impl App {
    /// The start state: workflows view, nothing loaded, no overlay.
    pub fn new() -> (a: App)
        ensures
            a.view == ViewId::Workflows,
            !a.help_open,
            !a.awaiting_t_prefix,
            !a.quit,
            a.subjects.kind@ == "task"@,
            a.logs.min_severity is None,
            a.logs.lines@.len() == 0,
            a.workflows.runs@.len() == 0,
            a.subjects.subjects@.len() == 0,
            a.queue.entries@.len() == 0,
            a.plugins.plugins@.len() == 0,
            a.health.status is None && a.health.health is None && a.health.error is None,
            !a.header.daemon_connected,
            a.header.daemon_health is None,
            a.header.active_workflows == 0,
            a.header.queue_depth == 0,
            a.header.top_spend_workflow is None,
            a.header.active_view == 0,
            a.workflows.selected == 0 && a.workflows.error is None,
            a.subjects.selected == 0 && a.subjects.error is None,
            a.queue.selected == 0 && a.queue.error is None,
            a.plugins.selected == 0 && a.plugins.error is None,
            a.logs.dropped == 0 && a.logs.error is None,
    {
        App {
            view: ViewId::Workflows,
            header: StickyHeaderState::new(),
            workflows: WorkflowsView::new(),
            subjects: SubjectsView::new(),
            queue: QueueView::new(),
            health: HealthView::new(),
            logs: LogsView::new(),
            plugins: PluginsView::new(),
            help_open: false,
            awaiting_t_prefix: false,
            quit: false,
        }
    }

    pub fn should_quit(&self) -> (b: bool)
        ensures
            b == self.quit,
    {
        self.quit
    }

    fn view_up(&mut self)
        ensures
            *final(self) == after_up(*old(self)),
    {
        match self.view {
            ViewId::Workflows => self.workflows.up(),
            ViewId::Subjects => self.subjects.up(),
            ViewId::Queue => self.queue.up(),
            ViewId::Plugins => self.plugins.up(),
            _ => {},
        }
    }

    fn view_down(&mut self)
        ensures
            *final(self) == after_down(*old(self)),
    {
        match self.view {
            ViewId::Workflows => self.workflows.down(),
            ViewId::Subjects => self.subjects.down(),
            ViewId::Queue => self.queue.down(),
            ViewId::Plugins => self.plugins.down(),
            _ => {},
        }
    }

    /// Carries out an action; returns whether the views should now be
    /// refreshed from the daemon.
    pub fn dispatch_action(&mut self, action: Action) -> (refresh: bool)
        ensures
            dispatched(*old(self), *final(self), action),
            refresh == needs_refresh(action),
    {
        match action {
            Action::Quit => {
                self.quit = true;
                false
            },
            Action::Help => {
                self.help_open = true;
                false
            },
            Action::Switch(n) => {
                self.view = ViewId::from_idx(n);
                false
            },
            Action::Up => {
                self.view_up();
                false
            },
            Action::Down => {
                self.view_down();
                false
            },
            Action::Left | Action::Right => false,
            Action::Enter | Action::Escape | Action::Search => false,
            Action::Filter => {
                if self.view == ViewId::Logs {
                    self.logs.cycle_filter();
                }
                false
            },
            Action::SubjectKindTask => {
                self.subjects.set_kind("task");
                true
            },
            Action::SubjectKindRequirement => {
                self.subjects.set_kind("requirement");
                true
            },
            Action::Refresh => true,
            Action::Noop => false,
        }
    }

    /// Handles one key press.
    pub fn on_key(&mut self, key: KeyEvent) -> (out: KeyOutcome)
        ensures
            key_handled(*old(self), *final(self), key, out),
    {
        if key.ctrl && key.code == KeyCode::Char('c') {
            self.quit = true;
            self.help_open = false;
            self.awaiting_t_prefix = false;
            return KeyOutcome { quit: true, refresh: false };
        }
        if self.help_open {
            self.help_open = false;
            return KeyOutcome { quit: false, refresh: false };
        }
        if self.awaiting_t_prefix {
            self.awaiting_t_prefix = false;
            let refresh = match translate_after_t(key) {
                Some(a) => self.dispatch_action(a),
                None => false,
            };
            return KeyOutcome { quit: false, refresh };
        }
        if let KeyCode::Char(c) = key.code {
            if c == 't' {
                self.awaiting_t_prefix = true;
                return KeyOutcome { quit: false, refresh: false };
            }
        }
        let action = translate(key);
        let refresh = self.dispatch_action(action);
        KeyOutcome { quit: self.quit, refresh }
    }

    // -----------------------------------------------------------------------
    // Folding daemon answers into the state
    // -----------------------------------------------------------------------

    /// What the next refresh asks for: the fixed limits and the current
    /// subject kind.
    pub fn refresh_plan(&self) -> (p: RefreshPlan)
        ensures
            p.workflow_limit == WORKFLOW_LIST_LIMIT,
            p.queue_limit == QUEUE_LIST_LIMIT,
            p.subject_kind@ == self.subjects.kind@,
    {
        RefreshPlan {
            workflow_limit: WORKFLOW_LIST_LIMIT,
            queue_limit: QUEUE_LIST_LIMIT,
            subject_kind: self.subjects.kind.clone(),
        }
    }

    /// The start-up status answer: the header shows whether the daemon runs.
    pub fn note_daemon_running(&mut self, running: bool)
        ensures
            *final(self) == (App {
                header: StickyHeaderState { daemon_connected: running, ..old(self).header },
                ..*old(self)
            }),
    {
        self.header.daemon_connected = running;
    }

    /// The daemon status answer (or the error text of a failed request).
    pub fn apply_daemon_status(&mut self, res: Result<DaemonStatus, String>)
        ensures
            status_applied(*old(self), *final(self), res),
    {
        match res {
            Ok(s) => {
                self.header.daemon_connected = s.running;
                self.health.status = Some(s);
            },
            Err(e) => {
                self.header.daemon_connected = false;
                self.health.set_error(failure("daemon_status", e.as_str()));
            },
        }
    }

    /// The daemon health answer. The health view takes it only once a
    /// status is known (and then clears its error).
    pub fn apply_daemon_health(&mut self, res: Result<DaemonHealth, String>)
        ensures
            health_applied(*old(self), *final(self), res),
    {
        match res {
            Ok(h) => {
                self.header.daemon_health = Some(h.status);
                if self.health.status.is_some() {
                    self.health.health = Some(h);
                    self.health.error = None;
                }
            },
            Err(e) => {
                self.header.daemon_health = None;
                self.health.set_error(failure("daemon_health", e.as_str()));
            },
        }
    }

    /// The workflow list answer; the header counts the active runs.
    pub fn apply_workflow_list(&mut self, res: Result<Vec<WorkflowRun>, String>)
        ensures
            workflows_applied(*old(self), *final(self), res),
    {
        match res {
            Ok(runs) => {
                self.header.active_workflows = count_active(&runs);
                self.workflows.set(runs);
            },
            Err(e) => self.workflows.set_error(failure("workflow_list", e.as_str())),
        }
    }

    /// The subject list answer for the current kind.
    pub fn apply_subject_list(&mut self, res: Result<Vec<Subject>, String>)
        ensures
            match res {
                Ok(subjects) => *final(self) == App {
                    subjects: SubjectsView {
                        subjects,
                        selected: clamped(
                            old(self).subjects.selected as nat,
                            subjects@.len(),
                        ) as usize,
                        error: None,
                        ..old(self).subjects
                    },
                    ..*old(self)
                },
                Err(e) => {
                    &&& final(self).subjects.error matches Some(m) && m@ == failure_text(
                        "subject_list"@,
                        e@,
                    )
                    &&& *final(self) == App {
                        subjects: SubjectsView {
                            error: final(self).subjects.error,
                            ..old(self).subjects
                        },
                        ..*old(self)
                    }
                },
            },
    {
        match res {
            Ok(subjects) => self.subjects.set(subjects),
            Err(e) => self.subjects.set_error(failure("subject_list", e.as_str())),
        }
    }

    /// The queue counters (ready, held, in flight), when the request
    /// succeeded: the header shows their sum.
    pub fn apply_queue_stats(&mut self, stats: Option<(u64, u64, u64)>)
        requires
            stats matches Some((r, h, f)) ==> r + h + f <= usize::MAX,
        ensures
            match stats {
                Some((r, h, f)) => *final(self) == App {
                    header: StickyHeaderState {
                        queue_depth: depth(r as nat, h as nat, f as nat) as usize,
                        ..old(self).header
                    },
                    ..*old(self)
                },
                None => *final(self) == *old(self),
            },
    {
        if let Some((r, h, f)) = stats {
            self.header.queue_depth = queue_depth(r, h, f);
        }
    }

    /// The queue list answer.
    pub fn apply_queue_list(&mut self, res: Result<Vec<QueueEntry>, String>)
        ensures
            match res {
                Ok(entries) => *final(self) == App {
                    queue: QueueView {
                        entries,
                        selected: clamped(old(self).queue.selected as nat, entries@.len()) as usize,
                        error: None,
                    },
                    ..*old(self)
                },
                Err(e) => {
                    &&& final(self).queue.error matches Some(m) && m@ == failure_text(
                        "queue_list"@,
                        e@,
                    )
                    &&& *final(self) == App {
                        queue: QueueView { error: final(self).queue.error, ..old(self).queue },
                        ..*old(self)
                    }
                },
            },
    {
        match res {
            Ok(entries) => self.queue.set(entries),
            Err(e) => self.queue.set_error(failure("queue_list", e.as_str())),
        }
    }

    /// The plugin list answer.
    pub fn apply_plugin_list(&mut self, res: Result<Vec<PluginInfo>, String>)
        ensures
            match res {
                Ok(plugins) => *final(self) == App {
                    plugins: PluginsView {
                        plugins,
                        selected: clamped(
                            old(self).plugins.selected as nat,
                            plugins@.len(),
                        ) as usize,
                        error: None,
                    },
                    ..*old(self)
                },
                Err(e) => {
                    &&& final(self).plugins.error matches Some(m) && m@ == failure_text(
                        "plugin_list"@,
                        e@,
                    )
                    &&& *final(self) == App {
                        plugins: PluginsView {
                            error: final(self).plugins.error,
                            ..old(self).plugins
                        },
                        ..*old(self)
                    }
                },
            },
    {
        match res {
            Ok(plugins) => self.plugins.set(plugins),
            Err(e) => self.plugins.set_error(failure("plugin_list", e.as_str())),
        }
    }

    /// The header content, with the tab of the current view highlighted.
    pub fn header_lines(&self) -> (r: Vec<Vec<Span>>)
        ensures
            r.deep_view() == header_lines(
                StickyHeaderState { active_view: view_index(self.view) as usize, ..self.header },
            ),
    {
        let top = match &self.header.top_spend_workflow {
            Some((id, cost)) => Some((id.clone(), cost.clone())),
            None => None,
        };
        let state = StickyHeaderState {
            daemon_connected: self.header.daemon_connected,
            daemon_health: self.header.daemon_health,
            active_workflows: self.header.active_workflows,
            queue_depth: self.header.queue_depth,
            top_spend_workflow: top,
            active_view: self.view.idx(),
        };
        let r = sticky_header_lines(&state);
        assert(state.top_spend_workflow == self.header.top_spend_workflow);
        r
    }
}

/// Law: the help overlay swallows exactly one key: whatever key other than
/// Ctrl-C closes it, nothing else changes and nothing is asked of the caller.
pub proof fn lemma_help_closes_on_any_key(pre: App, post: App, key: KeyEvent, out: KeyOutcome)
    requires
        pre.help_open,
        !is_ctrl_c(key),
        key_handled(pre, post, key, out),
    ensures
        !post.help_open,
        (post == App { help_open: false, ..pre }),
        !out.quit && !out.refresh,
{
}

/// Law: `t` followed by `k` or `r` selects the task or requirement kind,
/// resets the subject selection and asks for a refresh; the prefix is
/// always consumed by the second key.
pub proof fn lemma_t_prefix_selects_kind(
    s0: App,
    s1: App,
    s2: App,
    second: KeyEvent,
    ctrl: bool,
    o1: KeyOutcome,
    o2: KeyOutcome,
)
    requires
        !s0.help_open,
        !s0.awaiting_t_prefix,
        key_handled(s0, s1, KeyEvent { code: KeyCode::Char('t'), ctrl }, o1),
        !is_ctrl_c(second),
        key_handled(s1, s2, second, o2),
    ensures
        s1.awaiting_t_prefix,
        !s2.awaiting_t_prefix,
        second.code == KeyCode::Char('k') ==> s2.subjects.kind@ == "task"@ && s2.subjects.selected
            == 0 && o2.refresh,
        second.code == KeyCode::Char('r') ==> s2.subjects.kind@ == "requirement"@
            && s2.subjects.selected == 0 && o2.refresh,
        !o1.quit && !o2.quit,
{
}

/// Law: `q` asks to quit from any state outside the help overlay and the
/// `t` prefix, and the quit flag stays set.
pub proof fn lemma_quit_keys(pre: App, post: App, key: KeyEvent, out: KeyOutcome)
    requires
        !pre.help_open,
        !pre.awaiting_t_prefix,
        key.code == KeyCode::Char('q'),
        key_handled(pre, post, key, out),
    ensures
        post.quit,
        out.quit,
        !out.refresh,
{
}

/// Law: Ctrl-C quits from every state, closing the help overlay and the
/// `t` prefix, and changes nothing else.
pub proof fn lemma_ctrl_c_always_quits(pre: App, post: App, key: KeyEvent, out: KeyOutcome)
    requires
        is_ctrl_c(key),
        key_handled(pre, post, key, out),
    ensures
        post.quit,
        out.quit,
        !out.refresh,
        !post.help_open,
        !post.awaiting_t_prefix,
        (post == App { quit: true, help_open: false, awaiting_t_prefix: false, ..pre }),
{
}

/// Law: the quit flag is never cleared by a key press.
pub proof fn lemma_quit_sticky(pre: App, post: App, key: KeyEvent, out: KeyOutcome)
    requires
        pre.quit,
        key_handled(pre, post, key, out),
    ensures
        post.quit,
{
}

/// Law: `f` cycles the log filter only on the logs view; elsewhere the
/// state is unchanged.
pub proof fn lemma_filter_key(pre: App, post: App, ctrl: bool, out: KeyOutcome)
    requires
        !pre.help_open,
        !pre.awaiting_t_prefix,
        key_handled(pre, post, KeyEvent { code: KeyCode::Char('f'), ctrl }, out),
    ensures
        pre.view == ViewId::Logs ==> post.logs.min_severity == next_filter(pre.logs.min_severity),
        pre.view != ViewId::Logs ==> post == pre,
        !out.refresh,
{
}

/// Every list view keeps its selection on an existing row.
pub open spec fn selections_ok(s: App) -> bool {
    &&& selection_ok(s.workflows.selected as nat, s.workflows.runs@.len())
    &&& selection_ok(s.subjects.selected as nat, s.subjects.subjects@.len())
    &&& selection_ok(s.queue.selected as nat, s.queue.entries@.len())
    &&& selection_ok(s.plugins.selected as nat, s.plugins.plugins@.len())
}

/// Law: key presses never touch the loaded data (runs, subjects, queue,
/// plugins, log lines, daemon health) and keep every selection on an
/// existing row.
pub proof fn lemma_keys_keep_data(pre: App, post: App, key: KeyEvent, out: KeyOutcome)
    requires
        key_handled(pre, post, key, out),
    ensures
        post.workflows.runs == pre.workflows.runs,
        post.subjects.subjects == pre.subjects.subjects,
        post.queue.entries == pre.queue.entries,
        post.plugins.plugins == pre.plugins.plugins,
        post.logs.lines == pre.logs.lines,
        post.health == pre.health,
        post.header == pre.header,
        selections_ok(pre) ==> selections_ok(post),
{
    lemma_selection_kept(pre.workflows.selected as nat, pre.workflows.runs@.len());
    lemma_selection_kept(pre.subjects.selected as nat, pre.subjects.subjects@.len());
    lemma_selection_kept(pre.queue.selected as nat, pre.queue.entries@.len());
    lemma_selection_kept(pre.plugins.selected as nat, pre.plugins.plugins@.len());
}

/// Law: the workflow list answer of a refresh keeps every selection on an
/// existing row (the other list answers clamp their selection the same way).
pub proof fn lemma_workflow_answer_keeps_selection(
    pre: App,
    post: App,
    runs: Result<Vec<WorkflowRun>, String>,
)
    requires
        selections_ok(pre),
        workflows_applied(pre, post, runs),
    ensures
        selections_ok(post),
{
    if let Ok(r) = runs {
        lemma_selection_kept(pre.workflows.selected as nat, r@.len());
    }
}

/// Law: `Up` moves the selection of the current view one row up (staying on
/// the first row), never down, and leaves every other list's selection and
/// every list's contents alone.
pub proof fn lemma_up_moves_up(pre: App, post: App)
    requires
        dispatched(pre, post, Action::Up),
    ensures
        post.workflows.selected == if pre.view == ViewId::Workflows && pre.workflows.selected > 0 {
            pre.workflows.selected - 1
        } else {
            pre.workflows.selected as int
        },
        post.subjects.selected == if pre.view == ViewId::Subjects && pre.subjects.selected > 0 {
            pre.subjects.selected - 1
        } else {
            pre.subjects.selected as int
        },
        post.queue.selected == if pre.view == ViewId::Queue && pre.queue.selected > 0 {
            pre.queue.selected - 1
        } else {
            pre.queue.selected as int
        },
        post.plugins.selected == if pre.view == ViewId::Plugins && pre.plugins.selected > 0 {
            pre.plugins.selected - 1
        } else {
            pre.plugins.selected as int
        },
        post.workflows.selected <= pre.workflows.selected,
        post.subjects.selected <= pre.subjects.selected,
        post.queue.selected <= pre.queue.selected,
        post.plugins.selected <= pre.plugins.selected,
        post.workflows.runs == pre.workflows.runs,
        post.subjects.subjects == pre.subjects.subjects,
        post.queue.entries == pre.queue.entries,
        post.plugins.plugins == pre.plugins.plugins,
        post.view == pre.view,
{
}

/// Law: `Down` moves the selection of the current view one row down when a
/// row follows (staying on the last row), never up, and leaves every other
/// list's selection and every list's contents alone.
pub proof fn lemma_down_moves_down(pre: App, post: App)
    requires
        dispatched(pre, post, Action::Down),
    ensures
        post.workflows.selected == if pre.view == ViewId::Workflows && pre.workflows.selected + 1
            < pre.workflows.runs@.len() {
            pre.workflows.selected + 1
        } else {
            pre.workflows.selected as int
        },
        post.subjects.selected == if pre.view == ViewId::Subjects && pre.subjects.selected + 1
            < pre.subjects.subjects@.len() {
            pre.subjects.selected + 1
        } else {
            pre.subjects.selected as int
        },
        post.queue.selected == if pre.view == ViewId::Queue && pre.queue.selected + 1
            < pre.queue.entries@.len() {
            pre.queue.selected + 1
        } else {
            pre.queue.selected as int
        },
        post.plugins.selected == if pre.view == ViewId::Plugins && pre.plugins.selected + 1
            < pre.plugins.plugins@.len() {
            pre.plugins.selected + 1
        } else {
            pre.plugins.selected as int
        },
        post.workflows.selected >= pre.workflows.selected,
        post.subjects.selected >= pre.subjects.selected,
        post.queue.selected >= pre.queue.selected,
        post.plugins.selected >= pre.plugins.selected,
        post.workflows.runs == pre.workflows.runs,
        post.subjects.subjects == pre.subjects.subjects,
        post.queue.entries == pre.queue.entries,
        post.plugins.plugins == pre.plugins.plugins,
        post.view == pre.view,
{
    assert(pre.workflows.runs.len() == pre.workflows.runs@.len());
    assert(pre.subjects.subjects.len() == pre.subjects.subjects@.len());
    assert(pre.queue.entries.len() == pre.queue.entries@.len());
    assert(pre.plugins.plugins.len() == pre.plugins.plugins@.len());
}

/// Law: outside the help overlay and the `t` prefix, `k` and the Up arrow
/// act as `Up`, and `j` and the Down arrow as `Down`, whatever modifiers
/// are held.
pub proof fn lemma_move_keys(pre: App, post: App, key: KeyEvent, out: KeyOutcome)
    requires
        !pre.help_open,
        !pre.awaiting_t_prefix,
        key_handled(pre, post, key, out),
    ensures
        key.code == KeyCode::Char('k') || key.code == KeyCode::Up ==> dispatched(
            pre,
            post,
            Action::Up,
        ),
        key.code == KeyCode::Char('j') || key.code == KeyCode::Down ==> dispatched(
            pre,
            post,
            Action::Down,
        ),
{
}

} // verus!
