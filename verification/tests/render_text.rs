use herdr_harness_coordinator::{
    contract::{HarnessKind, HarnessSessionId, HarnessTier, NativeSessionHealth},
    host::{PopupDashboard, PopupNarrowMode},
    render::{
        PopupLayout, PopupLine, StatusTone, decimal_text, detail_pane, join_texts,
        list_title_text, popup_layout, snapshot_text, title_text, worker_detail_lines, worker_row,
    },
    views::{
        DASHBOARD_SCHEMA_VERSION, DashboardSessionView, DashboardSupervisorView, DashboardView,
        DashboardWorkerView, HarnessActivity, HarnessPresence, HarnessStatusView,
        HostActivityView,
    },
};

fn supervisor(attention: u32) -> DashboardSupervisorView {
    DashboardSupervisorView {
        schema_version: DASHBOARD_SCHEMA_VERSION,
        id: "supervisor".parse().expect("valid ID"),
        session_id: HarnessSessionId(9),
        presence: HarnessPresence::Online,
        activity: HarnessActivity::Idle,
        unread_messages: 0,
        attention_count: attention,
        terminal_id: None,
        pane_id: None,
    }
}

fn worker(id: &str, unread: u32) -> DashboardWorkerView {
    DashboardWorkerView {
        schema_version: DASHBOARD_SCHEMA_VERSION,
        id: id.parse().expect("valid ID"),
        kind: HarnessKind::Omp,
        launch_profile: Some("omp-main".to_owned()),
        model: None,
        session: Some(DashboardSessionView {
            schema_version: DASHBOARD_SCHEMA_VERSION,
            id: HarnessSessionId(1),
            presence: HarnessPresence::Online,
            activity: HarnessActivity::Idle,
            native_health: NativeSessionHealth::Healthy,
            context_tokens: None,
            context_window: None,
            context_percent: None,
            compaction_count: None,
            context_observed_at: None,
            last_seen_at: "2026-07-23T12:00:00Z".to_owned(),
            terminal_id: Some("t-1".to_owned()),
            pane_id: None,
            last_activity: Some(HostActivityView {
                summary: "ran tests".to_owned(),
                observed_at: "2026-07-23T11:00:00Z".to_owned(),
            }),
        }),
        unread_messages: unread,
        active_task: None,
        queued_tasks: Vec::new(),
        holds: Vec::new(),
        attention_events: Vec::new(),
    }
}

fn dashboard() -> PopupDashboard {
    PopupDashboard::from_dashboard(DashboardView {
        schema_version: DASHBOARD_SCHEMA_VERSION,
        generated_at: "2026-07-23T12:00:00Z".to_owned(),
        supervisor: supervisor(2),
        workers: vec![worker("calm-worker", 0), worker("mail-worker", 12)],
        attention_events: Vec::new(),
    })
}

#[test]
fn numbers_are_formatted_in_decimal() {
    assert_eq!(decimal_text(0), "0");
    assert_eq!(decimal_text(7), "7");
    assert_eq!(decimal_text(42), "42");
    assert_eq!(decimal_text(1_048_576), "1048576");
    assert_eq!(decimal_text(u64::MAX), "18446744073709551615");
}

#[test]
fn texts_are_joined_with_separators_between() {
    assert_eq!(join_texts(&Vec::new(), " · "), "");
    assert_eq!(join_texts(&vec!["a".to_owned()], " · "), "a");
    assert_eq!(
        join_texts(&vec!["a".to_owned(), "b".to_owned(), "c".to_owned()], ", "),
        "a, b, c"
    );
}

#[test]
fn the_title_names_the_supervisor_and_update_or_staleness() {
    let d = dashboard();
    assert_eq!(
        title_text(&d, false),
        " Harness Network · Supervisor supervisor online/idle · updated 2026-07-23T12:00:00Z "
    );
    assert_eq!(title_text(&d, true), " Harness Network · STALE ");
    assert_eq!(title_text(&PopupDashboard::default(), false), " Harness Network ");
}

#[test]
fn the_list_title_counts_attention_rows_and_supervisor_items() {
    assert_eq!(list_title_text(&dashboard()), " Workers · 3 attention ");
}

#[test]
fn rows_pad_the_identity_and_show_unread_counts() {
    let d = dashboard();
    assert_eq!(d.worker_ids(), vec!["mail-worker", "calm-worker"]);
    let row = worker_row(&d.workers[0]);
    assert_eq!(row.id_column, "mail-worker         ");
    assert_eq!(row.id_column.chars().count(), 20);
    assert_eq!(row.label, "idle");
    assert_eq!(row.tone, StatusTone::Attention);
    assert_eq!(row.inbox, "  inbox 12");
    assert_eq!(worker_row(&d.workers[1]).tone, StatusTone::Ready);
}

#[test]
fn worker_detail_lists_identity_harness_status_and_evidence() {
    let d = dashboard();
    let lines = worker_detail_lines(&d.workers[1]);
    assert_eq!(lines[0], PopupLine::WorkerTitle("calm-worker".to_owned()));
    assert_eq!(lines[1], PopupLine::Text("Harness  Omp · omp-main".to_owned()));
    assert_eq!(
        lines[2],
        PopupLine::Status {
            label: "idle".to_owned(),
            tone: StatusTone::Ready,
            presence: "online".to_owned(),
        }
    );
    assert_eq!(lines[3], PopupLine::Text("Unread  0".to_owned()));
    assert_eq!(lines[4], PopupLine::Text("Queued  0".to_owned()));
    assert_eq!(lines[5], PopupLine::Text("Health  Healthy".to_owned()));
    assert_eq!(
        lines[6],
        PopupLine::Text("Activity  ran tests · observed 2026-07-23T11:00:00Z".to_owned())
    );
    assert_eq!(lines.len(), 7);
}

#[test]
fn the_detail_pane_shows_warnings_and_a_placeholder() {
    let lines = detail_pane(None, Some("broker unavailable"), Some("focus failed"));
    assert_eq!(
        lines,
        vec![
            PopupLine::Notice("Refresh error: broker unavailable".to_owned()),
            PopupLine::Notice("Action warning: focus failed".to_owned()),
            PopupLine::Text("No top-level Worker is available.".to_owned()),
        ]
    );
}

#[test]
fn layout_splits_only_on_wide_terminals() {
    assert_eq!(popup_layout(88, PopupNarrowMode::List), PopupLayout::Split);
    assert_eq!(popup_layout(87, PopupNarrowMode::Detail), PopupLayout::Detail);
    assert_eq!(popup_layout(40, PopupNarrowMode::List), PopupLayout::List);
}

#[test]
fn the_snapshot_lists_the_supervisor_and_each_worker() {
    let snapshot = snapshot_text(&dashboard());
    assert_eq!(
        snapshot,
        "Harness Network\n\nWorkers\nSupervisor supervisor\nmail-worker · online · idle · inbox 12\ncalm-worker · online · idle · inbox 0\n\nTasks\nScheduling\n"
    );
    let empty = PopupDashboard::from_projections(
        &[HarnessStatusView {
            id: "solo".parse().expect("valid ID"),
            tier: HarnessTier::Supervisor,
            presence: "online".to_owned(),
            activity: "idle".to_owned(),
            unread_messages: 0,
            active_task_id: None,
        }],
        &[],
        &[],
        &[],
    );
    assert_eq!(snapshot_text(&empty), "Harness Network\n\nWorkers\n\nTasks\nScheduling\n");
}
