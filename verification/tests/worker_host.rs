use herdr_harness_coordinator::{
    adapter::{AdapterLifecycle, WorkerCompletionTools},
    contract::{
        AttachmentId, DeliveryIntent, HarnessKind, MessageId, SessionReusePolicy, TaskId, TaskRole,
    },
    host::worker_task_prompt,
    coordinator::CoordinatorCommand,
    profile::{EnvironmentMap, snapshot_digest},
    views::{TaskState, TaskView},
    worker_host::{
        CancellationStep, DeliveryContent, DispatchOutcome, DispatchStep, HostLoopState,
        NativeDeliveryKind, plan_delivery,
        NativeTurnStatus, build_worker_environment, cancelling_task, check_profile_kind,
        check_profile_snapshot, delivery_kind, dispatch_step, host_may_stop, successful_checks,
        task_attachments,
    },
};

fn task(id: u128, worker: &str, state: TaskState) -> TaskView {
    TaskView {
        id: TaskId(id),
        worker_id: worker.parse().expect("valid ID"),
        state,
        result_revision: 0,
        task_role: TaskRole::Implementation,
        requested_session_policy: SessionReusePolicy::Auto,
        effective_session_policy: None,
        harness_session_id: None,
        session_reused: None,
        session_decision_reason: None,
        context_percent: None,
    }
}

#[test]
fn profile_snapshots_must_match_their_durable_digest() {
    let snapshot = "schema_version = 1\n";
    let digest = snapshot_digest(snapshot);
    assert!(check_profile_snapshot(snapshot, &digest).is_ok());
    assert_eq!(
        check_profile_snapshot("schema_version = 2\n", &digest),
        Err("Worker launch profile snapshot digest does not match durable Session state".to_owned())
    );
    assert!(check_profile_kind(HarnessKind::Omp, HarnessKind::Omp).is_ok());
    assert_eq!(
        check_profile_kind(HarnessKind::Omp, HarnessKind::Codex),
        Err("Worker Harness Kind differs from its durable launch profile".to_owned())
    );
}

#[test]
fn worker_environment_inherits_only_declared_names_and_adds_the_host_values() {
    let mut process = EnvironmentMap::new();
    process.insert("PATH".to_owned(), "/bin".to_owned());
    process.insert("SECRET".to_owned(), "hidden".to_owned());
    let inherit = vec!["PATH".to_owned(), "MISSING".to_owned(), "PATH".to_owned()];
    let environment = build_worker_environment(&inherit, &process, "cap", "/run/broker.sock", "/state");
    assert_eq!(environment.get("PATH").map(String::as_str), Some("/bin"));
    assert!(!environment.contains_key("SECRET"));
    assert!(!environment.contains_key("MISSING"));
    assert_eq!(environment.get("HERDR_HARNESS_CAPABILITY").map(String::as_str), Some("cap"));
    assert_eq!(environment.get("HERDR_HARNESS_ACTOR").map(String::as_str), Some("host"));
    assert_eq!(
        environment.get("HERDR_COORDINATOR_SOCKET").map(String::as_str),
        Some("/run/broker.sock")
    );
    assert_eq!(environment.get("HERDR_PLUGIN_STATE_DIR").map(String::as_str), Some("/state"));
    assert_eq!(environment.len(), 5);
}

#[test]
fn compatibility_checks_depend_on_the_kind() {
    assert_eq!(successful_checks(HarnessKind::Omp), vec!["version", "ready", "set_host_tools", "get_state"]);
    assert_eq!(
        successful_checks(HarnessKind::Codex),
        vec!["version", "initialize", "initialized", "thread_start"]
    );
}

#[test]
fn follow_ups_wait_for_an_active_turn_without_queueing() {
    assert_eq!(
        delivery_kind(DeliveryIntent::Steer, AdapterLifecycle::Working, false),
        Some(NativeDeliveryKind::Steer)
    );
    assert_eq!(delivery_kind(DeliveryIntent::FollowUp, AdapterLifecycle::Working, false), None);
    assert_eq!(
        delivery_kind(DeliveryIntent::FollowUp, AdapterLifecycle::Working, true),
        Some(NativeDeliveryKind::FollowUp)
    );
    assert_eq!(
        delivery_kind(DeliveryIntent::FollowUp, AdapterLifecycle::Idle, false),
        Some(NativeDeliveryKind::StartTurn)
    );
    assert_eq!(
        task_attachments(vec![AttachmentId(1)], vec![AttachmentId(2), AttachmentId(3)]),
        vec![AttachmentId(1), AttachmentId(2), AttachmentId(3)]
    );
}

#[test]
fn pre_write_failures_are_retried_three_times_and_ambiguity_never() {
    assert_eq!(dispatch_step(1, DispatchOutcome::PreWriteFailure), DispatchStep::Retry);
    assert_eq!(dispatch_step(2, DispatchOutcome::PreWriteFailure), DispatchStep::Retry);
    assert_eq!(dispatch_step(3, DispatchOutcome::PreWriteFailure), DispatchStep::GiveUp);
    assert_eq!(dispatch_step(1, DispatchOutcome::AmbiguousFailure), DispatchStep::Ambiguous);
    assert_eq!(dispatch_step(2, DispatchOutcome::Accepted), DispatchStep::Accept);
}

#[test]
fn cancellation_interrupts_the_current_turn_once_and_times_out() {
    let tasks = vec![
        task(1, "other-worker", TaskState::Cancelling),
        task(2, "worker", TaskState::Working),
        task(3, "worker", TaskState::Cancelling),
    ];
    let worker = "worker".parse().expect("valid ID");
    assert_eq!(cancelling_task(&worker, &tasks), Some(TaskId(3)));
    let mut state = HostLoopState::new(7);
    state.accept_delivery(Some(TaskId(3)));
    assert_eq!(state.plan_cancellation(Some(TaskId(3)), 1_000), CancellationStep::StopNativeTurn(TaskId(3)));
    assert_eq!(state.plan_cancellation(Some(TaskId(3)), 2_000), CancellationStep::Nothing);
    assert_eq!(state.cancellation_timed_out(15_999), None);
    assert_eq!(state.cancellation_timed_out(16_000), Some(TaskId(3)));
    assert_eq!(state.plan_cancellation(Some(TaskId(4)), 3_000), CancellationStep::RecordCancelled(TaskId(4)));
    assert_eq!(state.plan_cancellation(None, 3_000), CancellationStep::Nothing);
}

#[test]
fn turn_completion_settles_cancellation_or_records_the_turn() {
    let mut state = HostLoopState::new(u64::MAX - 1);
    assert_eq!(state.next_event(), u64::MAX);
    assert_eq!(state.next_event(), u64::MAX);
    state.accept_delivery(Some(TaskId(5)));
    state.plan_cancellation(Some(TaskId(5)), 0);
    assert_eq!(state.take_current_task(), Some(TaskId(5)));
    assert_eq!(state.take_current_task(), None);
    match state.turn_completed(TaskId(5), TaskState::Cancelling, None, NativeTurnStatus::Interrupted) {
        CoordinatorCommand::RecordCancellationCompleted { task_id, succeeded } => {
            assert_eq!(task_id, TaskId(5));
            assert!(succeeded);
        }
        other => panic!("unexpected {other:?}"),
    }
    assert!(state.cancellation.is_none());
    match state.turn_completed(TaskId(6), TaskState::Working, None, NativeTurnStatus::Failed) {
        CoordinatorCommand::RecordTurnCompleted { task_id, native_turn_id, succeeded } => {
            assert_eq!(task_id, TaskId(6));
            assert_eq!(native_turn_id, "provider-turn");
            assert!(!succeeded);
        }
        other => panic!("unexpected {other:?}"),
    }
    match state.turn_completed(TaskId(7), TaskState::Working, Some("turn-9".to_owned()), NativeTurnStatus::Completed) {
        CoordinatorCommand::RecordTurnCompleted { native_turn_id, succeeded, .. } => {
            assert_eq!(native_turn_id, "turn-9");
            assert!(succeeded);
        }
        other => panic!("unexpected {other:?}"),
    }
}

#[test]
fn a_stopping_host_waits_for_its_occupied_tasks() {
    let worker = "worker".parse().expect("valid ID");
    let busy = vec![task(1, "worker", TaskState::Reviewing), task(2, "other", TaskState::Working)];
    let settled = vec![task(1, "worker", TaskState::Approved), task(2, "other", TaskState::Working)];
    assert!(!host_may_stop("stopping", &worker, &busy));
    assert!(host_may_stop("stopping", &worker, &settled));
    assert!(!host_may_stop("idle", &worker, &settled));
}

const TOOLS: WorkerCompletionTools = WorkerCompletionTools {
    attachment_create: "fixture_attachment_create",
    complete: "fixture_complete",
};

#[test]
fn root_task_deliveries_carry_the_prompt_correlation_and_all_attachments() {
    let message = MessageId(0x019f7606_a26b_7a41_87dd_95f3a072a226);
    let task_id = TaskId(7);
    let planned = plan_delivery(
        message,
        DeliveryContent::Task {
            task_id,
            instructions: "Inspect Cargo.toml.".to_owned(),
            explicit: vec![AttachmentId(1)],
            dependency_results: vec![AttachmentId(2)],
        },
        AdapterLifecycle::Idle,
        false,
        TOOLS,
    )
    .expect("an idle Harness starts a turn");
    assert_eq!(planned.correlation, "019f7606-a26b-7a41-87dd-95f3a072a226");
    assert_eq!(planned.task_id, Some(task_id));
    assert_eq!(planned.kind, NativeDeliveryKind::StartTurn);
    assert_eq!(planned.text, worker_task_prompt(task_id, "Inspect Cargo.toml.", TOOLS));
    assert_eq!(planned.attachments, vec![AttachmentId(1), AttachmentId(2)]);
    assert!(plan_delivery(
        message,
        DeliveryContent::Task {
            task_id,
            instructions: String::new(),
            explicit: Vec::new(),
            dependency_results: Vec::new(),
        },
        AdapterLifecycle::Working,
        false,
        TOOLS,
    )
    .is_none());
}

#[test]
fn bus_message_deliveries_keep_their_text_and_intent() {
    let planned = plan_delivery(
        MessageId(1),
        DeliveryContent::Message {
            task_id: None,
            text: "stop editing".to_owned(),
            intent: DeliveryIntent::Steer,
            attachments: vec![AttachmentId(3)],
        },
        AdapterLifecycle::Working,
        false,
        TOOLS,
    )
    .expect("a steer is always delivered");
    assert_eq!(planned.correlation, "00000000-0000-0000-0000-000000000001");
    assert_eq!(planned.task_id, None);
    assert_eq!(planned.kind, NativeDeliveryKind::Steer);
    assert_eq!(planned.text, "stop editing");
    assert_eq!(planned.attachments, vec![AttachmentId(3)]);
}
