use animus_tui::views::health::{
    DaemonHealth, DaemonHealthStatus, DaemonStatus, HealthView, PluginHealth,
};
use animus_tui::views::logs::{severity_rank, LogEntry, LogLevel, LogsView, Severity, MAX_LINES};
use animus_tui::views::plugins::{PluginInfo, PluginsView};
use animus_tui::views::queue::{queue_depth, QueueEntry, QueueEntryStatus, QueueView};
use animus_tui::views::subjects::{Subject, SubjectStatus, SubjectsView};
use animus_tui::views::workflows::{count_active, WorkflowRun, WorkflowStatus, WorkflowsView};
use animus_tui::views::{Span, Timestamp, Tone, ViewId};
use animus_tui::widgets::sticky_header::{sticky_header_lines, StickyHeaderState};

fn entry(sev: Severity, msg: &str) -> LogEntry {
    LogEntry {
        severity: sev,
        timestamp: "12:00:00".to_string(),
        message: msg.to_string(),
    }
}

fn texts(line: &[Span]) -> Vec<String> {
    line.iter().map(|s| s.text.clone()).collect()
}

#[test]
fn view_ids_round_trip_and_clamp() {
    for i in 0..7 {
        assert_eq!(ViewId::from_idx(i).idx(), i);
    }
    assert_eq!(ViewId::from_idx(6), ViewId::Plugins);
    assert_eq!(ViewId::from_idx(99), ViewId::Plugins);
    assert_eq!(ViewId::Logs.idx(), 4);
}

#[test]
fn log_buffer_drops_oldest_and_counts() {
    let mut v = LogsView::new();
    for i in 0..MAX_LINES + 3 {
        v.push(entry(Severity::Info, &i.to_string()));
    }
    assert_eq!(v.lines.len(), MAX_LINES);
    assert_eq!(v.dropped, 3);
    assert_eq!(v.lines.front().unwrap().message, "3");
    assert_eq!(v.lines.back().unwrap().message, (MAX_LINES + 2).to_string());
}

#[test]
fn log_filter_cycles_through_four_states() {
    let mut v = LogsView::new();
    assert!(v.min_severity.is_none());
    v.cycle_filter();
    assert_eq!(v.min_severity, Some(Severity::Info));
    v.cycle_filter();
    assert_eq!(v.min_severity, Some(Severity::Warn));
    v.cycle_filter();
    assert_eq!(v.min_severity, Some(Severity::Error));
    v.cycle_filter();
    assert!(v.min_severity.is_none());
    assert_eq!(severity_rank(Severity::Warn), 1);
}

#[test]
fn log_title_and_visible_tail() {
    let mut v = LogsView::new();
    v.push(entry(Severity::Info, "a"));
    v.push(entry(Severity::Warn, "b"));
    v.push(entry(Severity::Error, "c"));
    v.push(entry(Severity::Info, "d"));
    assert_eq!(v.title(), " Logs  (filter: all)  dropped: 0 ");
    let shown = v.visible_lines(2);
    assert_eq!(shown.len(), 2);
    assert_eq!(texts(&shown[0]), vec!["12:00:00", "  ", "c"]);
    assert_eq!(shown[0][2].tone, Some(Tone::Bad));
    assert_eq!(texts(&shown[1]), vec!["12:00:00", "  ", "d"]);
    v.cycle_filter();
    v.cycle_filter();
    assert_eq!(v.title(), " Logs  (filter: warn+)  dropped: 0 ");
    let shown = v.visible_lines(10);
    assert_eq!(shown.len(), 2);
    assert_eq!(shown[0][2].text, "b");
    assert_eq!(shown[0][2].tone, Some(Tone::Warn));
    assert_eq!(shown[1][2].text, "c");
    // Zero rows still shows the newest line.
    assert_eq!(v.visible_lines(0).len(), 1);
}

#[test]
fn ingest_maps_levels_and_formats_time() {
    let mut v = LogsView::new();
    v.ingest(LogLevel::Debug, 9, 5, 7, "dbg".to_string());
    v.ingest(LogLevel::Error, 23, 59, 59, "boom".to_string());
    assert_eq!(v.lines[0].severity, Severity::Info);
    assert_eq!(v.lines[0].timestamp, "09:05:07");
    assert_eq!(v.lines[1].severity, Severity::Error);
    assert_eq!(v.lines[1].timestamp, "23:59:59");
    v.set_error("gone".to_string());
    assert_eq!(v.notice().unwrap().text, "error: gone");
}

fn run(id: &str, status: WorkflowStatus, started: i64) -> WorkflowRun {
    WorkflowRun {
        id: id.to_string(),
        definition: "animus.task/standard".to_string(),
        status,
        subject_id: None,
        started_at: Timestamp { secs: started, nanos: 0 },
    }
}

#[test]
fn workflow_rows_and_selection() {
    let mut v = WorkflowsView::new();
    assert_eq!(v.notice().unwrap().text, "no workflow runs");
    v.selected = 5;
    v.set(vec![
        run("wf-0001", WorkflowStatus::Running, 1000),
        run("wf-0123456789abcdef", WorkflowStatus::Completed, 0),
    ]);
    assert_eq!(v.selected, 1);
    assert!(v.notice().is_none());
    v.down();
    assert_eq!(v.selected, 1);
    v.up();
    v.up();
    assert_eq!(v.selected, 0);
    let rows = v.rows(Timestamp { secs: 1042, nanos: 0 });
    assert_eq!(rows[0].cells, vec!["wf-0001", "animus.task/standard", "running", "-", "42s"]);
    assert_eq!(rows[0].tone, Some(Tone::Fg));
    assert_eq!(rows[1].cells[0], "wf-0123456789…");
    assert_eq!(rows[1].cells[2], "completed");
    assert_eq!(rows[1].cells[4], "17m");
    assert_eq!(rows[1].tone, Some(Tone::Good));
    assert_eq!(v.header(), vec!["id", "definition", "status", "subject", "age"]);
    v.set_error("workflow_list: down".to_string());
    assert_eq!(v.notice().unwrap().text, "error: workflow_list: down");
    assert_eq!(v.notice().unwrap().tone, Some(Tone::Bad));
}

#[test]
fn active_workflow_count() {
    let runs = vec![
        run("a", WorkflowStatus::Running, 0),
        run("b", WorkflowStatus::Pending, 0),
        run("c", WorkflowStatus::Paused, 0),
        run("d", WorkflowStatus::Completed, 0),
        run("e", WorkflowStatus::Failed, 0),
        run("f", WorkflowStatus::Cancelled, 0),
    ];
    assert_eq!(count_active(&runs), 3);
}

#[test]
fn queue_rows_and_depth() {
    let mut v = QueueView::new();
    assert_eq!(v.notice().unwrap().text, "queue empty");
    v.set(vec![QueueEntry {
        id: "q-0001".to_string(),
        subject_id: "task:TASK-1".to_string(),
        status: QueueEntryStatus::InFlight,
        priority: -2,
        enqueued_at: Timestamp { secs: 0, nanos: 0 },
    }]);
    let rows = v.rows(Timestamp { secs: 7200, nanos: 0 });
    assert_eq!(rows[0].cells, vec!["q-0001", "task:TASK-1", "inflight", "-2", "2h"]);
    assert_eq!(rows[0].tone, Some(Tone::Fg));
    assert_eq!(queue_depth(1, 2, 3), 6);
}

#[test]
fn subject_rows_kind_and_title() {
    let mut v = SubjectsView::new();
    assert_eq!(v.kind, "task");
    assert_eq!(v.title(), " Subjects (kind=task)  tk=task tr=requirement ");
    v.set(vec![Subject {
        id: "task:TASK-1".to_string(),
        title: "first task".to_string(),
        status: SubjectStatus::InProgress,
        priority: Some(2),
        assignee: None,
    }]);
    v.down();
    assert_eq!(v.selected, 0);
    let rows = v.rows();
    assert_eq!(rows[0].cells, vec!["task:TASK-1", "first task", "inprogress", "2", "-"]);
    v.selected = 0;
    v.set_kind("requirement");
    assert_eq!(v.kind, "requirement");
    assert_eq!(v.selected, 0);
}

#[test]
fn plugin_rows() {
    let mut v = PluginsView::new();
    assert_eq!(v.notice().unwrap().text, "no plugins installed");
    v.set(vec![PluginInfo {
        name: "animus-provider-echo".to_string(),
        kind: "provider".to_string(),
        version: "0.2.2".to_string(),
        source: None,
    }]);
    let rows = v.rows();
    assert_eq!(rows[0].cells, vec!["animus-provider-echo", "provider", "0.2.2", "-"]);
    assert_eq!(rows[0].tone, None);
}

#[test]
fn health_lines_show_status_and_plugins() {
    let mut v = HealthView::new();
    assert!(v.lines().is_empty());
    v.set(
        DaemonStatus {
            running: true,
            pid: Some(4242),
            uptime_seconds: Some(3661),
            version: Some("0.5.6".to_string()),
            project_root: None,
            log_path: None,
        },
        DaemonHealth {
            status: DaemonHealthStatus::Degraded,
            plugins: vec![PluginHealth {
                name: "p".to_string(),
                kind: "provider".to_string(),
                status: DaemonHealthStatus::Down,
            }],
            last_error: Some("oops".to_string()),
        },
    );
    let lines = v.lines();
    assert_eq!(lines.len(), 9);
    assert_eq!(texts(&lines[0]), vec!["PID:     ", "4242"]);
    assert_eq!(texts(&lines[1]), vec!["uptime:  ", "1h 1m"]);
    assert_eq!(texts(&lines[2]), vec!["version: ", "0.5.6"]);
    assert_eq!(texts(&lines[3]), vec!["log:     ", "-"]);
    assert_eq!(texts(&lines[4]), vec!["health:  ", "degraded"]);
    assert_eq!(lines[4][1].tone, Some(Tone::Warn));
    assert_eq!(texts(&lines[5]), vec!["last err: ", "oops"]);
    assert_eq!(texts(&lines[7]), vec!["Plugins"]);
    assert_eq!(texts(&lines[8]), vec!["  ", "p", "  ", "provider", "  ", "down"]);
    assert_eq!(lines[8][5].tone, Some(Tone::Bad));
}

#[test]
fn sticky_header_content() {
    let mut s = StickyHeaderState::new();
    let lines = sticky_header_lines(&s);
    assert_eq!(lines[0][1].text, "\u{2b24} disconnected");
    assert_eq!(lines[0][7].text, "top$: --");
    s.daemon_connected = true;
    s.daemon_health = Some(DaemonHealthStatus::Healthy);
    s.active_workflows = 3;
    s.queue_depth = 1200;
    s.top_spend_workflow = Some(("wf-1".to_string(), "1.50".to_string()));
    s.active_view = 4;
    let lines = sticky_header_lines(&s);
    assert_eq!(
        texts(&lines[0]),
        vec!["animus-tui ", "\u{2b24} healthy", "  ", "wf:3", "  ", "q:1200", "  ", "top$: wf-1 $1.50"]
    );
    assert_eq!(lines[0][1].tone, Some(Tone::Good));
    assert_eq!(
        texts(&lines[1]),
        vec!["1:wf", " ", "2:subj", " ", "3:queue", " ", "4:daemon", " ", "5:logs", " ", "6:cost", " ", "7:plugins"]
    );
    assert!(lines[1][8].bold);
    assert_eq!(lines[1][8].tone, Some(Tone::Accent));
    assert!(!lines[1][0].bold);
}

#[test]
fn defaults_match_new() {
    let s = SubjectsView::default();
    assert_eq!(s.kind, "task");
    assert_eq!(s.selected, 0);
    assert!(LogsView::default().lines.is_empty());
    assert!(WorkflowsView::default().runs.is_empty());
    assert!(HealthView::default().status.is_none());
}
