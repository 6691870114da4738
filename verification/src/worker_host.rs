//! Decisions of a Worker Host: the process that runs one Worker pane's native Harness, delivers
//! its inbox, and reports provider evidence to the Coordinator.
//!
//! The Host's loop itself (polling the broker, driving the provider process, reading its
//! events) stands outside this module; each step of it asks one of these functions what to do.
use vstd::prelude::*;
use vstd::string::*;
use crate::adapter::{AdapterLifecycle, WorkerCompletionTools};
use crate::contract::{
    uuid_text, AttachmentId, DeliveryIntent, HarnessId, HarnessKind, MessageId, TaskId,
};
use crate::host::{task_prompt, worker_task_prompt};
use crate::coordinator::CoordinatorCommand;
use crate::profile::{allows, snapshot_digest, text_digest, EnvironmentMap};
use crate::text::str_equals;
use crate::views::{TaskState, TaskView};

verus! {

/// Interval between two Host polls of the broker, in milliseconds.
pub const POLL_INTERVAL_MS: u64 = 500;

/// Lease of a Host connection, in seconds.
pub const HOST_LEASE_SECONDS: u32 = 15;

/// Interval between two Host heartbeats, in milliseconds.
pub const HEARTBEAT_INTERVAL_MS: u64 = 2000;

/// Time a cooperative cancellation may take before the Host gives up, in milliseconds.
pub const CANCELLATION_TIMEOUT_MS: u64 = 15000;

/// Attempts at a provider delivery that failed before any byte reached the provider.
pub const PRE_WRITE_RETRIES: u32 = 3;

/// Turn identity recorded when the provider reports none.
pub const FALLBACK_TURN_ID: &'static str = "provider-turn";

/// How a native turn ended.
#[derive(Debug, Clone, Copy, PartialEq, Eq, Structural)]
pub enum NativeTurnStatus {
    /// The turn ran to completion.
    Completed,
    /// The turn was interrupted on request.
    Interrupted,
    /// The turn failed.
    Failed,
}

/// How a message reaches the native Harness.
#[derive(Debug, Clone, Copy, PartialEq, Eq, Structural)]
pub enum NativeDeliveryKind {
    /// Append to the active turn.
    Steer,
    /// Queue behind the active turn.
    FollowUp,
    /// Start a new turn.
    StartTurn,
}

/// The diagnostic for a launch profile snapshot whose digest differs from the durable one.
pub open spec fn snapshot_mismatch() -> Seq<char> {
    "Worker launch profile snapshot digest does not match durable Session state"@
}

/// Checks the durable launch profile snapshot of a Worker Session against its durable digest.
pub fn check_profile_snapshot(snapshot: &str, expected_digest: &str) -> (checked: Result<(), String>)
    ensures
        match checked {
            Ok(()) => text_digest(snapshot@) == expected_digest@,
            Err(message) => text_digest(snapshot@) != expected_digest@ && message@ == snapshot_mismatch(),
        },
{
    let actual = snapshot_digest(snapshot);
    if str_equals(actual.as_str(), expected_digest) {
        Ok(())
    } else {
        Err(String::from_str("Worker launch profile snapshot digest does not match durable Session state"))
    }
}

/// Checks that a Worker's durable launch profile is for the Worker's own Harness Kind.
pub fn check_profile_kind(profile_kind: HarnessKind, worker_kind: HarnessKind) -> (checked: Result<(), String>)
    ensures
        match checked {
            Ok(()) => profile_kind == worker_kind,
            Err(message) => profile_kind != worker_kind
                && message@ == "Worker Harness Kind differs from its durable launch profile"@,
        },
{
    if profile_kind == worker_kind {
        Ok(())
    } else {
        Err(String::from_str("Worker Harness Kind differs from its durable launch profile"))
    }
}

/// The process environment values whose names the profile inherits, a name listed twice
/// counting once.
pub open spec fn inherited_environment(
    inherit: Seq<String>,
    process: Map<Seq<char>, Seq<char>>,
) -> Map<Seq<char>, Seq<char>> {
    Map::new(|name: Seq<char>| allows(inherit, name) && process.dom().contains(name), |name: Seq<char>| process[name])
}

/// The environment of a Worker's native Harness: the inherited process values, then the
/// Host's capability, actor, Coordinator socket, and plugin state directory.
pub open spec fn worker_environment(
    inherit: Seq<String>,
    process: Map<Seq<char>, Seq<char>>,
    capability: Seq<char>,
    socket: Seq<char>,
    state_dir: Seq<char>,
) -> Map<Seq<char>, Seq<char>> {
    inherited_environment(inherit, process)
        .insert("HERDR_HARNESS_CAPABILITY"@, capability)
        .insert("HERDR_HARNESS_ACTOR"@, "host"@)
        .insert("HERDR_COORDINATOR_SOCKET"@, socket)
        .insert("HERDR_PLUGIN_STATE_DIR"@, state_dir)
}

/// Builds the environment of a Worker's native Harness.
pub fn build_worker_environment(
    inherit: &Vec<String>,
    process: &EnvironmentMap,
    capability: &str,
    socket: &str,
    state_dir: &str,
) -> (environment: EnvironmentMap)
    ensures
        environment@ == worker_environment(inherit@, process@, capability@, socket@, state_dir@),
{
    let mut environment = EnvironmentMap::new();
    let mut i: usize = 0;
    while i < inherit.len()
        invariant
            i <= inherit@.len(),
            environment@ == inherited_environment(inherit@.take(i as int), process@),
        decreases inherit@.len() - i,
    {
        let name = &inherit[i];
        let ghost before = environment@;
        match process.get(name.as_str()) {
            Some(value) => {
                environment.insert(name.clone(), value.clone());
            },
            None => {},
        }
        proof {
            let prefix = inherit@.take(i as int);
            let next = inherit@.take(i + 1);
            assert forall|n: Seq<char>| allows(next, n) <==> (allows(prefix, n) || n == name@) by {
                if allows(next, n) {
                    let k = choose|k: int| 0 <= k < next.len() && #[trigger] next[k]@ == n;
                    if k < i {
                        assert(prefix[k]@ == n);
                    }
                }
                if allows(prefix, n) {
                    let k = choose|k: int| 0 <= k < prefix.len() && #[trigger] prefix[k]@ == n;
                    assert(next[k]@ == n);
                }
                if n == name@ {
                    assert(next[i as int]@ == n);
                }
            }
            assert(environment@ =~= inherited_environment(next, process@));
        }
        i = i + 1;
    }
    assert(inherit@.take(inherit@.len() as int) =~= inherit@);
    environment.insert(String::from_str("HERDR_HARNESS_CAPABILITY"), capability.to_owned());
    environment.insert(String::from_str("HERDR_HARNESS_ACTOR"), String::from_str("host"));
    environment.insert(String::from_str("HERDR_COORDINATOR_SOCKET"), socket.to_owned());
    environment.insert(String::from_str("HERDR_PLUGIN_STATE_DIR"), state_dir.to_owned());
    environment
}

/// The native checks a Host reports as passed once a provider of the given Kind started.
pub open spec fn compatibility_checks(kind: HarnessKind) -> Seq<Seq<char>> {
    match kind {
        HarnessKind::Omp => seq!["version"@, "ready"@, "set_host_tools"@, "get_state"@],
        HarnessKind::Codex => seq!["version"@, "initialize"@, "initialized"@, "thread_start"@],
    }
}

/// Lists the native checks a Host reports as passed once a provider of the given Kind started.
pub fn successful_checks(kind: HarnessKind) -> (checks: Vec<String>)
    ensures
        checks@.map_values(|c: String| c@) == compatibility_checks(kind),
{
    let mut checks: Vec<String> = Vec::new();
    match kind {
        HarnessKind::Omp => {
            checks.push(String::from_str("version"));
            checks.push(String::from_str("ready"));
            checks.push(String::from_str("set_host_tools"));
            checks.push(String::from_str("get_state"));
        },
        HarnessKind::Codex => {
            checks.push(String::from_str("version"));
            checks.push(String::from_str("initialize"));
            checks.push(String::from_str("initialized"));
            checks.push(String::from_str("thread_start"));
        },
    }
    assert(checks@.map_values(|c: String| c@) =~= compatibility_checks(kind));
    checks
}

/// How a message with the given intent reaches a native Harness in the given lifecycle:
/// `None` when a follow-up must wait because the provider cannot queue behind an active turn.
pub open spec fn native_delivery(
    intent: DeliveryIntent,
    lifecycle: AdapterLifecycle,
    active_turn_follow_up: bool,
) -> Option<NativeDeliveryKind> {
    match intent {
        DeliveryIntent::Steer => Some(NativeDeliveryKind::Steer),
        DeliveryIntent::FollowUp => if lifecycle == AdapterLifecycle::Working {
            if active_turn_follow_up {
                Some(NativeDeliveryKind::FollowUp)
            } else {
                None
            }
        } else {
            Some(NativeDeliveryKind::StartTurn)
        },
    }
}

/// Decides how a message reaches the native Harness, or that it must wait.
pub fn delivery_kind(
    intent: DeliveryIntent,
    lifecycle: AdapterLifecycle,
    active_turn_follow_up: bool,
) -> (kind: Option<NativeDeliveryKind>)
    ensures
        kind == native_delivery(intent, lifecycle, active_turn_follow_up),
{
    match intent {
        DeliveryIntent::Steer => Some(NativeDeliveryKind::Steer),
        DeliveryIntent::FollowUp => if lifecycle == AdapterLifecycle::Working {
            if active_turn_follow_up {
                Some(NativeDeliveryKind::FollowUp)
            } else {
                None
            }
        } else {
            Some(NativeDeliveryKind::StartTurn)
        },
    }
}

/// The Attachments delivered with a root Task: its explicit Attachments, then each
/// dependency Result's Attachment.
pub fn task_attachments(explicit: Vec<AttachmentId>, dependency_results: Vec<AttachmentId>) -> (attachments: Vec<AttachmentId>)
    ensures
        attachments@ == explicit@ + dependency_results@,
{
    let mut attachments = explicit;
    let mut rest = dependency_results;
    attachments.append(&mut rest);
    attachments
}

/// What one inbox message delivers to the native Harness.
#[derive(Debug)]
pub enum DeliveryContent {
    /// A root Task message: the Task's instructions, its explicit Attachments, and the
    /// Attachments of the dependency Results it was frozen to.
    Task {
        task_id: TaskId,
        instructions: String,
        explicit: Vec<AttachmentId>,
        dependency_results: Vec<AttachmentId>,
    },
    /// A Bus message: its text, delivery intent, and Attachments, for an optional Task.
    Message {
        task_id: Option<TaskId>,
        text: String,
        intent: DeliveryIntent,
        attachments: Vec<AttachmentId>,
    },
}

/// The intent a message is delivered with: a root Task always follows up.
pub open spec fn content_intent(content: DeliveryContent) -> DeliveryIntent {
    match content {
        DeliveryContent::Task { .. } => DeliveryIntent::FollowUp,
        DeliveryContent::Message { intent, .. } => intent,
    }
}

/// The Task a message belongs to.
pub open spec fn content_task(content: DeliveryContent) -> Option<TaskId> {
    match content {
        DeliveryContent::Task { task_id, .. } => Some(task_id),
        DeliveryContent::Message { task_id, .. } => task_id,
    }
}

/// The text the provider receives: a root Task's prompt, or a Bus message's own text.
pub open spec fn content_text(content: DeliveryContent, attachment_create: Seq<char>, complete: Seq<char>) -> Seq<char> {
    match content {
        DeliveryContent::Task { task_id, instructions, .. } => task_prompt(
            task_id,
            instructions@,
            attachment_create,
            complete,
        ),
        DeliveryContent::Message { text, .. } => text@,
    }
}

/// The Attachments delivered with a message: a root Task's explicit Attachments, then its
/// dependency Results' Attachments; a Bus message's own.
pub open spec fn content_attachments(content: DeliveryContent) -> Seq<AttachmentId> {
    match content {
        DeliveryContent::Task { explicit, dependency_results, .. } => explicit@ + dependency_results@,
        DeliveryContent::Message { attachments, .. } => attachments@,
    }
}

/// One native delivery, correlated with the message it carries; its Attachments are still
/// identities, verified and located by the Host before dispatch.
#[derive(Debug)]
pub struct PlannedDelivery {
    /// The delivered message's ID as hyphenated UUID text.
    pub correlation: String,
    /// The Task the message belongs to.
    pub task_id: Option<TaskId>,
    /// How the provider receives it.
    pub kind: NativeDeliveryKind,
    /// What the provider receives.
    pub text: String,
    /// The Attachments delivered with it, in order.
    pub attachments: Vec<AttachmentId>,
}

/// Plans the delivery of one inbox message to a native Harness in the given lifecycle:
/// `None` when a follow-up must wait because the provider cannot queue behind an active turn.
pub fn plan_delivery(
    message_id: MessageId,
    content: DeliveryContent,
    lifecycle: AdapterLifecycle,
    active_turn_follow_up: bool,
    tools: WorkerCompletionTools,
) -> (planned: Option<PlannedDelivery>)
    ensures
        match native_delivery(content_intent(content), lifecycle, active_turn_follow_up) {
            None => planned is None,
            Some(kind) => planned matches Some(d) && d.correlation@ == uuid_text(message_id.0)
                && d.task_id == content_task(content) && d.kind == kind && d.text@ == content_text(
                content,
                tools.attachment_create@,
                tools.complete@,
            ) && d.attachments@ == content_attachments(content),
        },
{
    let (task_id, text, intent, attachments) = match content {
        DeliveryContent::Task { task_id, instructions, explicit, dependency_results } => {
            let prompt = worker_task_prompt(task_id, instructions.as_str(), tools);
            (Some(task_id), prompt, DeliveryIntent::FollowUp, task_attachments(explicit, dependency_results))
        },
        DeliveryContent::Message { task_id, text, intent, attachments } => (
            task_id,
            text,
            intent,
            attachments,
        ),
    };
    match delivery_kind(intent, lifecycle, active_turn_follow_up) {
        None => None,
        Some(kind) => Some(
            PlannedDelivery { correlation: message_id.to_text(), task_id, kind, text, attachments },
        ),
    }
}

/// What one dispatch attempt reported.
#[derive(Debug, Clone, Copy, PartialEq, Eq, Structural)]
pub enum DispatchOutcome {
    /// The provider accepted the delivery.
    Accepted,
    /// The attempt failed after provider bytes may have been written.
    AmbiguousFailure,
    /// The attempt failed before any provider byte was written.
    PreWriteFailure,
}

/// What a Host does after a dispatch attempt.
#[derive(Debug, Clone, Copy, PartialEq, Eq, Structural)]
pub enum DispatchStep {
    /// Record the acceptance.
    Accept,
    /// Record the delivery as unknown: it must not be repeated.
    Ambiguous,
    /// Try again.
    Retry,
    /// Report the last pre-write failure.
    GiveUp,
}

/// The step after attempt number `attempt` (counting from 1) reported `outcome`: pre-write
/// failures are retried up to [`PRE_WRITE_RETRIES`] attempts; an ambiguous failure never is.
pub open spec fn dispatch_step_of(attempt: u32, outcome: DispatchOutcome) -> DispatchStep {
    match outcome {
        DispatchOutcome::Accepted => DispatchStep::Accept,
        DispatchOutcome::AmbiguousFailure => DispatchStep::Ambiguous,
        DispatchOutcome::PreWriteFailure => if attempt < PRE_WRITE_RETRIES {
            DispatchStep::Retry
        } else {
            DispatchStep::GiveUp
        },
    }
}

/// Decides the step after a dispatch attempt.
pub fn dispatch_step(attempt: u32, outcome: DispatchOutcome) -> (step: DispatchStep)
    ensures
        step == dispatch_step_of(attempt, outcome),
{
    match outcome {
        DispatchOutcome::Accepted => DispatchStep::Accept,
        DispatchOutcome::AmbiguousFailure => DispatchStep::Ambiguous,
        DispatchOutcome::PreWriteFailure => if attempt < PRE_WRITE_RETRIES {
            DispatchStep::Retry
        } else {
            DispatchStep::GiveUp
        },
    }
}

/// The first Task of the Worker that is being cancelled.
pub open spec fn first_cancelling(worker: Seq<char>, tasks: Seq<TaskView>) -> Option<TaskId>
    decreases tasks.len(),
{
    if tasks.len() == 0 {
        None
    } else if tasks[0].worker_id@ == worker && tasks[0].state == TaskState::Cancelling {
        Some(tasks[0].id)
    } else {
        first_cancelling(worker, tasks.drop_first())
    }
}

proof fn lemma_first_cancelling_skip(worker: Seq<char>, tasks: Seq<TaskView>, i: int)
    requires
        0 <= i <= tasks.len(),
        forall|k: int| 0 <= k < i ==> !(#[trigger] tasks[k].worker_id@ == worker && tasks[k].state
            == TaskState::Cancelling),
    ensures
        first_cancelling(worker, tasks) == first_cancelling(worker, tasks.skip(i)),
    decreases i,
{
    if i > 0 {
        lemma_first_cancelling_skip(worker, tasks, i - 1);
        assert(tasks.skip(i - 1).drop_first() =~= tasks.skip(i));
        assert(tasks.skip(i - 1)[0] == tasks[i - 1]);
    } else {
        assert(tasks.skip(0) =~= tasks);
    }
}

/// Finds the first Task of the Worker that is being cancelled.
pub fn cancelling_task(worker: &HarnessId, tasks: &[TaskView]) -> (found: Option<TaskId>)
    ensures
        found == first_cancelling(worker@, tasks@),
{
    let mut i: usize = 0;
    while i < tasks.len()
        invariant
            i <= tasks@.len(),
            forall|k: int| 0 <= k < i ==> !(#[trigger] tasks@[k].worker_id@ == worker@
                && tasks@[k].state == TaskState::Cancelling),
        decreases tasks@.len() - i,
    {
        if tasks[i].worker_id.same_as(worker) && tasks[i].state == TaskState::Cancelling {
            proof {
                lemma_first_cancelling_skip(worker@, tasks@, i as int);
            }
            return Some(tasks[i].id);
        }
        i = i + 1;
    }
    proof {
        lemma_first_cancelling_skip(worker@, tasks@, i as int);
    }
    None
}

/// A Task state that still occupies its Worker.
pub open spec fn occupies_worker(state: TaskState) -> bool {
    ||| state == TaskState::Dispatching
    ||| state == TaskState::Working
    ||| state == TaskState::Waiting
    ||| state == TaskState::Reviewing
    ||| state == TaskState::Cancelling
    ||| state == TaskState::DeliveryUnknown
}

/// A Host may stop once its Session is stopping and none of its Worker's Tasks occupies it.
pub open spec fn may_stop(activity: Seq<char>, worker: Seq<char>, tasks: Seq<TaskView>) -> bool {
    &&& activity == "stopping"@
    &&& forall|k: int| 0 <= k < tasks.len() ==> !(#[trigger] tasks[k].worker_id@ == worker
        && occupies_worker(tasks[k].state))
}

/// Decides whether a Host may stop its native Harness now.
pub fn host_may_stop(activity: &str, worker: &HarnessId, tasks: &[TaskView]) -> (stop: bool)
    ensures
        stop == may_stop(activity@, worker@, tasks@),
{
    if !str_equals(activity, "stopping") {
        return false;
    }
    let mut i: usize = 0;
    while i < tasks.len()
        invariant
            i <= tasks@.len(),
            forall|k: int| 0 <= k < i ==> !(#[trigger] tasks@[k].worker_id@ == worker@
                && occupies_worker(tasks@[k].state)),
        decreases tasks@.len() - i,
    {
        let state = tasks[i].state;
        let occupied = match state {
            TaskState::Dispatching | TaskState::Working | TaskState::Waiting | TaskState::Reviewing
            | TaskState::Cancelling | TaskState::DeliveryUnknown => true,
            _ => false,
        };
        if occupied && tasks[i].worker_id.same_as(worker) {
            return false;
        }
        i = i + 1;
    }
    true
}

/// What a Host does about a Task that is being cancelled.
#[derive(Debug, Clone, Copy, PartialEq, Eq, Structural)]
pub enum CancellationStep {
    /// Nothing new.
    Nothing,
    /// Ask the provider to stop the Task's active native turn.
    StopNativeTurn(TaskId),
    /// The Task never reached the provider: record its cancellation as completed.
    RecordCancelled(TaskId),
}

/// A cooperative cancellation the Host asked the provider for.
#[derive(Debug, Clone, Copy, PartialEq, Eq, Structural)]
pub struct PendingCancellation {
    /// The Task whose native turn was asked to stop.
    pub task_id: TaskId,
    /// When the Host asked, in milliseconds.
    pub requested_at: u64,
}

/// The Host loop's own state between two steps.
#[derive(Debug, Clone, Copy, PartialEq, Eq, Structural)]
pub struct HostLoopState {
    /// The Task whose native turn the provider is running.
    pub current_task: Option<TaskId>,
    /// The cancellation the Host is waiting for.
    pub cancellation: Option<PendingCancellation>,
    /// The sequence number of the last Host event reported.
    pub event_sequence: u64,
}

/// The state and step after seeing `cancelling` (the Worker's first Task being cancelled) at
/// time `now`.
pub open spec fn cancellation_transition(
    state: HostLoopState,
    cancelling: Option<TaskId>,
    now: u64,
) -> (HostLoopState, CancellationStep) {
    match cancelling {
        Some(task) => if state.cancellation matches Some(pending) && pending.task_id == task {
            (state, CancellationStep::Nothing)
        } else if state.current_task == Some(task) {
            (
                HostLoopState {
                    cancellation: Some(PendingCancellation { task_id: task, requested_at: now }),
                    ..state
                },
                CancellationStep::StopNativeTurn(task),
            )
        } else {
            (state, CancellationStep::RecordCancelled(task))
        },
        None => (state, CancellationStep::Nothing),
    }
}

/// The command that records how the native turn of a Task ended, given the Task's state.
pub open spec fn turn_command(
    task_id: TaskId,
    task_state: TaskState,
    turn_id: Option<Seq<char>>,
    status: NativeTurnStatus,
) -> CoordinatorCommandView {
    if task_state == TaskState::Cancelling {
        CoordinatorCommandView::RecordCancellationCompleted {
            task_id,
            succeeded: status == NativeTurnStatus::Interrupted || status == NativeTurnStatus::Completed,
        }
    } else {
        CoordinatorCommandView::RecordTurnCompleted {
            task_id,
            native_turn_id: match turn_id {
                Some(t) => t,
                None => FALLBACK_TURN_ID@,
            },
            succeeded: status == NativeTurnStatus::Completed,
        }
    }
}

/// The Host-reported commands, as values.
pub enum CoordinatorCommandView {
    RecordCancellationCompleted { task_id: TaskId, succeeded: bool },
    RecordTurnCompleted { task_id: TaskId, native_turn_id: Seq<char>, succeeded: bool },
    Other,
}

/// The value of a Host-reported command.
pub open spec fn command_view(command: CoordinatorCommand) -> CoordinatorCommandView {
    match command {
        CoordinatorCommand::RecordCancellationCompleted { task_id, succeeded } =>
            CoordinatorCommandView::RecordCancellationCompleted { task_id, succeeded },
        CoordinatorCommand::RecordTurnCompleted { task_id, native_turn_id, succeeded } =>
            CoordinatorCommandView::RecordTurnCompleted {
            task_id,
            native_turn_id: native_turn_id@,
            succeeded,
        },
        _ => CoordinatorCommandView::Other,
    }
}

impl HostLoopState {
    /// The state of a Host that has not delivered anything yet, continuing the Session's
    /// event sequence.
    pub fn new(event_sequence: u64) -> (state: HostLoopState)
        ensures
            state == (HostLoopState { current_task: None, cancellation: None, event_sequence }),
    {
        HostLoopState { current_task: None, cancellation: None, event_sequence }
    }

    /// Records a native acceptance: a delivery that carries a Task makes it the current Task.
    pub fn accept_delivery(&mut self, task_id: Option<TaskId>)
        ensures
            *final(self) == (HostLoopState {
                current_task: match task_id {
                    Some(t) => Some(t),
                    None => old(self).current_task,
                },
                ..*old(self)
            }),
    {
        if let Some(task) = task_id {
            self.current_task = Some(task);
        }
    }

    /// Decides what to do about the Worker's first Task being cancelled, at time `now`.
    pub fn plan_cancellation(&mut self, cancelling: Option<TaskId>, now: u64) -> (step: CancellationStep)
        ensures
            (*final(self), step) == cancellation_transition(*old(self), cancelling, now),
    {
        match cancelling {
            Some(task) => {
                let already = match self.cancellation {
                    Some(pending) => pending.task_id == task,
                    None => false,
                };
                if already {
                    CancellationStep::Nothing
                } else if self.current_task == Some(task) {
                    self.cancellation = Some(PendingCancellation { task_id: task, requested_at: now });
                    CancellationStep::StopNativeTurn(task)
                } else {
                    CancellationStep::RecordCancelled(task)
                }
            },
            None => CancellationStep::Nothing,
        }
    }

    /// The Task whose cooperative cancellation has run out of time at `now`, if any.
    pub fn cancellation_timed_out(&self, now: u64) -> (expired: Option<TaskId>)
        ensures
            expired == match self.cancellation {
                Some(p) => if now >= p.requested_at && now - p.requested_at >= CANCELLATION_TIMEOUT_MS {
                    Some(p.task_id)
                } else {
                    None
                },
                None => None,
            },
    {
        match self.cancellation {
            Some(p) => if now >= p.requested_at && now - p.requested_at >= CANCELLATION_TIMEOUT_MS {
                Some(p.task_id)
            } else {
                None
            },
            None => None,
        }
    }

    /// Numbers the next Host event, saturating at the largest sequence number.
    pub fn next_event(&mut self) -> (sequence: u64)
        ensures
            sequence == if old(self).event_sequence < u64::MAX {
                old(self).event_sequence + 1
            } else {
                u64::MAX as int
            },
            *final(self) == (HostLoopState { event_sequence: sequence, ..*old(self) }),
    {
        self.event_sequence = self.event_sequence.saturating_add(1);
        self.event_sequence
    }

    /// Ends the current Task's native turn: returns it and clears it.
    pub fn take_current_task(&mut self) -> (task: Option<TaskId>)
        ensures
            task == old(self).current_task,
            *final(self) == (HostLoopState { current_task: None, ..*old(self) }),
    {
        let task = self.current_task;
        self.current_task = None;
        task
    }

    /// The command that records how the native turn of `task_id` ended; a cancelling Task's
    /// turn settles the cancellation, which the Host then stops waiting for.
    pub fn turn_completed(
        &mut self,
        task_id: TaskId,
        task_state: TaskState,
        turn_id: Option<String>,
        status: NativeTurnStatus,
    ) -> (command: CoordinatorCommand)
        ensures
            command_view(command) == turn_command(
                task_id,
                task_state,
                match turn_id {
                    Some(t) => Some(t@),
                    None => None,
                },
                status,
            ),
            *final(self) == if task_state == TaskState::Cancelling {
                HostLoopState { cancellation: None, ..*old(self) }
            } else {
                *old(self)
            },
    {
        if task_state == TaskState::Cancelling {
            self.cancellation = None;
            let succeeded = match status {
                NativeTurnStatus::Interrupted | NativeTurnStatus::Completed => true,
                NativeTurnStatus::Failed => false,
            };
            CoordinatorCommand::RecordCancellationCompleted { task_id, succeeded }
        } else {
            let native_turn_id = match turn_id {
                Some(t) => t,
                None => String::from_str(FALLBACK_TURN_ID),
            };
            CoordinatorCommand::RecordTurnCompleted {
                task_id,
                native_turn_id,
                succeeded: status == NativeTurnStatus::Completed,
            }
        }
    }
}

/// A Host asks the provider to interrupt a Task's turn at most once: once it has, seeing the
/// same Task still being cancelled changes nothing until the turn ends.
pub proof fn cancellation_is_requested_once(state: HostLoopState, task: TaskId, first: u64, later: u64)
    requires
        cancellation_transition(state, Some(task), first).1 == CancellationStep::StopNativeTurn(task),
    ensures
        ({
            let after = cancellation_transition(state, Some(task), first).0;
            cancellation_transition(after, Some(task), later) == (after, CancellationStep::Nothing)
        }),
{
}

/// A delivery whose bytes may have reached the provider is never attempted again, and a
/// delivery is attempted at most [`PRE_WRITE_RETRIES`] times.
pub proof fn ambiguous_deliveries_are_never_repeated(attempt: u32, outcome: DispatchOutcome)
    ensures
        outcome == DispatchOutcome::AmbiguousFailure ==> dispatch_step_of(attempt, outcome) == DispatchStep::Ambiguous,
        dispatch_step_of(attempt, outcome) == DispatchStep::Retry ==> attempt < PRE_WRITE_RETRIES,
{
}


/// A stopping Host never stops its native Harness while a Task of its Worker is dispatching,
/// working, waiting, in review, being cancelled, or of unknown delivery; once every Task of
/// its Worker is queued, approved, cancelled, or failed (and Tasks of other Workers never
/// matter), it stops. It never stops unless its Session is stopping.
pub proof fn stopping_waits_for_occupying_tasks(
    activity: Seq<char>,
    worker: Seq<char>,
    tasks: Seq<TaskView>,
    k: int,
)
    ensures
        0 <= k < tasks.len() && tasks[k].worker_id@ == worker && (tasks[k].state
            == TaskState::Dispatching || tasks[k].state == TaskState::Working || tasks[k].state
            == TaskState::Waiting || tasks[k].state == TaskState::Reviewing || tasks[k].state
            == TaskState::Cancelling || tasks[k].state == TaskState::DeliveryUnknown) ==> !may_stop(
            activity,
            worker,
            tasks,
        ),
        activity == "stopping"@ && (forall|j: int|
            0 <= j < tasks.len() && #[trigger] tasks[j].worker_id@ == worker ==> (tasks[j].state
                == TaskState::Queued || tasks[j].state == TaskState::Approved || tasks[j].state
                == TaskState::Cancelled || tasks[j].state == TaskState::Failed)) ==> may_stop(
            activity,
            worker,
            tasks,
        ),
        activity != "stopping"@ ==> !may_stop(activity, worker, tasks),
{
}

} // verus!
