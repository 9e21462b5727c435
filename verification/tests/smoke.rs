use animus_tui::app::{
    centered_rect, help_lines, scope_root_for, Area, KeyOutcome, QUEUE_LIST_LIMIT,
    WORKFLOW_LIST_LIMIT,
};
use animus_tui::keybinds::{translate, translate_after_t, Action, KeyCode, KeyEvent};
use animus_tui::views::health::DaemonStatus;
use animus_tui::views::workflows::{WorkflowRun, WorkflowStatus};
use animus_tui::views::{Timestamp, ViewId};
use animus_tui::App;

fn key(code: KeyCode) -> KeyEvent {
    KeyEvent { code, ctrl: false }
}

fn ch(c: char) -> KeyEvent {
    key(KeyCode::Char(c))
}

#[test]
fn plugin_manifest_is_valid_json_with_required_fields() {
    let v: serde_json::Value =
        serde_json::from_str(animus_tui::PLUGIN_MANIFEST_JSON).expect("valid manifest JSON");
    assert_eq!(v["name"], "animus-tui");
    assert_eq!(v["plugin_kind"], "custom");
    assert!(v["version"].as_str().is_some());
    assert!(v["protocol_version"].as_str().is_some());
    assert!(v["capabilities"].is_array());
    assert!(v["env_required"].is_array());
}

#[test]
fn help_overlay_opens_and_closes() {
    let mut app = App::new();
    assert!(!app.help_open);
    app.on_key(ch('?'));
    assert!(app.help_open);
    // Any key closes it.
    let out = app.on_key(ch('a'));
    assert!(!app.help_open);
    assert_eq!(out, KeyOutcome { quit: false, refresh: false });
    // Even `q` only closes the overlay.
    app.on_key(ch('?'));
    app.on_key(ch('q'));
    assert!(!app.should_quit());
}

#[test]
fn t_prefix_switches_subject_kind() {
    let mut app = App::new();
    assert_eq!(app.subjects.kind, "task");
    app.on_key(ch('t'));
    assert!(app.awaiting_t_prefix);
    let out = app.on_key(ch('r'));
    assert_eq!(app.subjects.kind, "requirement");
    assert!(out.refresh);
    assert!(!app.awaiting_t_prefix);
    app.on_key(ch('t'));
    let out = app.on_key(ch('x'));
    assert!(!out.refresh);
    assert!(!app.awaiting_t_prefix);
    assert_eq!(app.subjects.kind, "requirement");
    app.on_key(ch('t'));
    app.on_key(ch('k'));
    assert_eq!(app.subjects.kind, "task");
}

#[test]
fn quit_key_sets_quit_flag() {
    let mut app = App::new();
    assert!(!app.should_quit());
    let out = app.on_key(ch('q'));
    assert!(app.should_quit());
    assert!(out.quit);
}

#[test]
fn ctrl_c_quits() {
    let mut app = App::new();
    let out = app.on_key(KeyEvent { code: KeyCode::Char('c'), ctrl: true });
    assert!(out.quit);
    assert!(app.should_quit());
}

#[test]
fn ctrl_c_quits_from_help_and_prefix() {
    let ctrl_c = KeyEvent { code: KeyCode::Char('c'), ctrl: true };
    let mut app = App::new();
    app.on_key(ch('?'));
    assert!(app.help_open);
    let out = app.on_key(ctrl_c);
    assert!(out.quit);
    assert!(app.should_quit());
    assert!(!app.help_open);

    let mut app = App::new();
    app.on_key(ch('t'));
    assert!(app.awaiting_t_prefix);
    let out = app.on_key(ctrl_c);
    assert_eq!(out, KeyOutcome { quit: true, refresh: false });
    assert!(app.should_quit());
    assert!(!app.awaiting_t_prefix);
}

#[test]
fn cycle_log_filter() {
    let mut app = App::new();
    app.on_key(ch('5'));
    assert_eq!(app.view, ViewId::Logs);
    assert!(app.logs.min_severity.is_none());
    app.on_key(ch('f'));
    assert!(app.logs.min_severity.is_some());
}

#[test]
fn filter_ignored_outside_logs() {
    let mut app = App::new();
    app.on_key(ch('f'));
    assert!(app.logs.min_severity.is_none());
}

#[test]
fn digits_switch_views_and_refresh_key_asks_refresh() {
    let mut app = App::new();
    let names = [
        ViewId::Workflows,
        ViewId::Subjects,
        ViewId::Queue,
        ViewId::Health,
        ViewId::Logs,
        ViewId::Cost,
        ViewId::Plugins,
    ];
    for (i, c) in ['1', '2', '3', '4', '5', '6', '7'].into_iter().enumerate() {
        let out = app.on_key(ch(c));
        assert_eq!(app.view, names[i]);
        assert!(!out.refresh);
    }
    assert!(app.on_key(ch('r')).refresh);
    assert_eq!(app.on_key(ch('8')), KeyOutcome { quit: false, refresh: false });
}

#[test]
fn keymap() {
    assert_eq!(translate(ch('q')), Action::Quit);
    assert_eq!(translate(ch('?')), Action::Help);
    assert_eq!(translate(ch('1')), Action::Switch(0));
    assert_eq!(translate(ch('7')), Action::Switch(6));
    assert_eq!(translate(ch('h')), Action::Left);
    assert_eq!(translate(key(KeyCode::Down)), Action::Down);
    assert_eq!(translate(ch('k')), Action::Up);
    assert_eq!(translate(key(KeyCode::Right)), Action::Right);
    assert_eq!(translate(ch('f')), Action::Filter);
    assert_eq!(translate(ch('r')), Action::Refresh);
    assert_eq!(translate(ch('t')), Action::Noop);
    assert_eq!(translate(key(KeyCode::Enter)), Action::Noop);
    assert_eq!(translate(key(KeyCode::Esc)), Action::Noop);
    assert_eq!(translate_after_t(ch('k')), Some(Action::SubjectKindTask));
    assert_eq!(translate_after_t(ch('r')), Some(Action::SubjectKindRequirement));
    assert_eq!(translate_after_t(ch('z')), None);
}

#[test]
fn selection_moves_in_current_view() {
    let mut app = App::new();
    let runs = (0..3)
        .map(|i| WorkflowRun {
            id: format!("wf-{i}"),
            definition: "d".to_string(),
            status: WorkflowStatus::Running,
            subject_id: None,
            started_at: Timestamp { secs: 0, nanos: 0 },
        })
        .collect();
    app.apply_workflow_list(Ok(runs));
    assert_eq!(app.header.active_workflows, 3);
    app.on_key(ch('j'));
    app.on_key(ch('j'));
    app.on_key(ch('j'));
    assert_eq!(app.workflows.selected, 2);
    app.on_key(ch('k'));
    assert_eq!(app.workflows.selected, 1);
    app.on_key(ch('2'));
    app.on_key(ch('j'));
    assert_eq!(app.workflows.selected, 1);
}

#[test]
fn refresh_answers_update_views_and_header() {
    let mut app = App::new();
    app.apply_daemon_status(Ok(DaemonStatus {
        running: true,
        pid: None,
        uptime_seconds: None,
        version: None,
        project_root: None,
        log_path: None,
    }));
    assert!(app.header.daemon_connected);
    app.apply_daemon_status(Err("socket closed".to_string()));
    assert!(!app.header.daemon_connected);
    assert_eq!(app.health.error.as_deref(), Some("daemon_status: socket closed"));
    app.apply_workflow_list(Err("timeout".to_string()));
    assert_eq!(app.workflows.error.as_deref(), Some("workflow_list: timeout"));
    app.apply_queue_stats(Some((1, 2, 3)));
    assert_eq!(app.header.queue_depth, 6);
    app.apply_queue_stats(None);
    assert_eq!(app.header.queue_depth, 6);
    app.apply_plugin_list(Err("x".to_string()));
    assert_eq!(app.plugins.error.as_deref(), Some("plugin_list: x"));
    app.apply_subject_list(Ok(vec![]));
    assert!(app.subjects.error.is_none());
    let header = app.header_lines();
    assert_eq!(header[0][5].text, "q:6");
}

#[test]
fn centered_popup() {
    let area = Area { x: 0, y: 0, width: 120, height: 30 };
    assert_eq!(centered_rect(40, 3, area), Area { x: 40, y: 13, width: 40, height: 3 });
    let small = Area { x: 5, y: 5, width: 20, height: 2 };
    assert_eq!(centered_rect(60, 16, small), Area { x: 5, y: 5, width: 20, height: 2 });
    assert_eq!(help_lines().len(), 12);
}

#[test]
fn refresh_plan_and_start_up_status() {
    let mut app = App::new();
    let plan = app.refresh_plan();
    assert_eq!(plan.workflow_limit, WORKFLOW_LIST_LIMIT);
    assert_eq!(plan.workflow_limit, 100);
    assert_eq!(plan.queue_limit, QUEUE_LIST_LIMIT);
    assert_eq!(plan.queue_limit, 200);
    assert_eq!(plan.subject_kind, "task");
    app.on_key(ch('t'));
    app.on_key(ch('r'));
    assert_eq!(app.refresh_plan().subject_kind, "requirement");
    app.note_daemon_running(true);
    assert!(app.header.daemon_connected);
}

#[test]
fn start_up_scope_root() {
    assert_eq!(
        scope_root_for(Some("/home/me"), Some(("/tmp", Some("tmp")))),
        Some("/home/me/.animus/tmp-e9671acd2448".to_string())
    );
    assert_eq!(scope_root_for(None, Some(("/tmp", Some("tmp")))), None);
    assert_eq!(scope_root_for(Some("/home/me"), None), None);
}
