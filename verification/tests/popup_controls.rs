use herdr_harness_coordinator::{
    contract::{HarnessId, SessionReusePolicy, TaskId, TaskRole, WorktreeHoldId},
    host::{PopupDashboard, PopupNarrowMode, PopupSelection},
    popup::{HOLD_CLEAR_AUDIT_NOTE, PopupAction, PopupKey},
    views::{HarnessStatusView, HoldView, TaskGraphView, TaskSchedulingState, TaskState, TaskView},
    contract::HarnessTier,
};

fn status(id: &str, presence: &str, activity: &str, active: Option<TaskId>) -> HarnessStatusView {
    HarnessStatusView {
        id: id.parse().expect("valid ID"),
        tier: HarnessTier::Worker,
        presence: presence.to_owned(),
        activity: activity.to_owned(),
        unread_messages: 0,
        active_task_id: active,
    }
}

fn graph(id: TaskId, worker: &str, state: TaskState, revision: u32) -> TaskGraphView {
    TaskGraphView {
        task: TaskView {
            id,
            worker_id: worker.parse().expect("valid ID"),
            state,
            result_revision: revision,
            task_role: TaskRole::Implementation,
            requested_session_policy: SessionReusePolicy::Auto,
            effective_session_policy: None,
            harness_session_id: None,
            session_reused: None,
            session_decision_reason: None,
            context_percent: None,
        },
        scheduling_state: TaskSchedulingState::Ready,
        dependencies: Vec::new(),
        dependents: Vec::new(),
        worker_queue_position: None,
        waiting_for_worker: false,
        waiting_for_session: false,
        waiting_for_repository: false,
    }
}

fn network() -> (PopupDashboard, TaskId, TaskId) {
    let active = TaskId(1);
    let failed = TaskId(2);
    let working = graph(active, "busy-worker", TaskState::Working, 3);
    let broken = graph(failed, "held-worker", TaskState::Failed, 0);
    let hold = HoldView {
        id: WorktreeHoldId(3),
        repository_key: "/repo".to_owned(),
        task_id: failed,
        reason: "worker host lost".to_owned(),
    };
    let dashboard = PopupDashboard::from_projections(
        &[
            status("busy-worker", "online", "working", Some(active)),
            status("held-worker", "online", "failed", None),
            status("quiet-worker", "offline", "idle", None),
        ],
        &[working.task.clone(), broken.task.clone()],
        &[working, broken],
        &[hold],
    );
    (dashboard, active, failed)
}

#[test]
fn arrows_move_and_escape_closes() {
    let (dashboard, _, _) = network();
    assert_eq!(
        dashboard.worker_ids(),
        vec!["held-worker", "busy-worker", "quiet-worker"]
    );
    let mut selection = PopupSelection::default();
    assert_eq!(selection.handle_key(Some(&dashboard), PopupKey::Down), PopupAction::Redraw);
    assert_eq!(selection.selected_worker_id().map(HarnessId::as_str), Some("held-worker"));
    selection.handle_key(Some(&dashboard), PopupKey::Down);
    selection.handle_key(Some(&dashboard), PopupKey::Down);
    selection.handle_key(Some(&dashboard), PopupKey::Down);
    assert_eq!(selection.selected_worker_id().map(HarnessId::as_str), Some("quiet-worker"));
    selection.handle_key(Some(&dashboard), PopupKey::Up);
    assert_eq!(selection.selected_worker_id().map(HarnessId::as_str), Some("busy-worker"));
    assert_eq!(selection.handle_key(Some(&dashboard), PopupKey::Escape), PopupAction::Close);
    assert_eq!(selection.handle_key(None, PopupKey::Char('q')), PopupAction::Close);
    assert_eq!(selection.handle_key(None, PopupKey::Char('r')), PopupAction::ClearWarning);
}

#[test]
fn detail_mode_follows_enter_right_and_left() {
    let mut selection = PopupSelection::default();
    selection.handle_key(None, PopupKey::Enter);
    assert_eq!(selection.narrow_mode(), PopupNarrowMode::Detail);
    selection.handle_key(None, PopupKey::Left);
    assert_eq!(selection.narrow_mode(), PopupNarrowMode::List);
    selection.handle_key(None, PopupKey::Right);
    assert_eq!(selection.narrow_mode(), PopupNarrowMode::Detail);
}

#[test]
fn actions_target_the_selected_worker() {
    let (dashboard, active, failed) = network();
    let mut selection = PopupSelection::default();
    selection.retain_worker(&dashboard);
    assert_eq!(
        selection.handle_key(Some(&dashboard), PopupKey::Char('h')),
        PopupAction::ClearHold { task_id: failed }
    );
    assert_eq!(
        selection.handle_key(Some(&dashboard), PopupKey::Char('c')),
        PopupAction::Redraw
    );
    selection.handle_key(Some(&dashboard), PopupKey::Down);
    assert_eq!(
        selection.handle_key(Some(&dashboard), PopupKey::Char('a')),
        PopupAction::Approve { task_id: active, result_revision: 3 }
    );
    assert_eq!(
        selection.handle_key(Some(&dashboard), PopupKey::Char('c')),
        PopupAction::Cancel { task_id: active }
    );
    assert_eq!(
        selection.handle_key(Some(&dashboard), PopupKey::Char('s')),
        PopupAction::Stop { worker_id: "busy-worker".parse().expect("valid ID") }
    );
    selection.handle_key(Some(&dashboard), PopupKey::Down);
    assert_eq!(
        selection.handle_key(Some(&dashboard), PopupKey::Char('s')),
        PopupAction::Redraw,
        "an offline Worker is not stopped"
    );
    assert_eq!(
        selection.handle_key(Some(&dashboard), PopupKey::Char('o')),
        PopupAction::Warn {
            message: "Unable to focus Worker: selected Worker has no live Coordinator Session".to_owned()
        }
    );
    assert_eq!(selection.handle_key(Some(&dashboard), PopupKey::Char('x')), PopupAction::Redraw);
    assert_eq!(
        HOLD_CLEAR_AUDIT_NOTE,
        "Supervisor reconciled the repository from the popup."
    );
}

#[test]
fn moving_up_undoes_moving_down_away_from_the_edges() {
    let (dashboard, _, _) = network();
    let mut selection = PopupSelection::default();
    selection.retain_worker(&dashboard);
    assert_eq!(selection.selected_worker_id().map(HarnessId::as_str), Some("held-worker"));
    selection.select_next(&dashboard);
    selection.select_previous(&dashboard);
    assert_eq!(selection.selected_worker_id().map(HarnessId::as_str), Some("held-worker"));
    selection.select_next(&dashboard);
    selection.select_next(&dashboard);
    selection.select_previous(&dashboard);
    selection.select_next(&dashboard);
    assert_eq!(selection.selected_worker_id().map(HarnessId::as_str), Some("quiet-worker"));
    let empty = PopupDashboard::default();
    selection.retain_worker(&empty);
    assert_eq!(selection.selected_worker_id(), None);
}
