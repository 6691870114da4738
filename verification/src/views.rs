//! Read-model projections of durable Coordinator state consumed by the Supervisor popup.
use vstd::prelude::*;
use crate::contract::{
    HarnessId, HarnessKind, HarnessSessionId, HarnessTier, NativeSessionHealth,
    SessionReusePolicy, TaskId, TaskRole, WorktreeHoldId, DependencyCondition,
    DependencyFailurePolicy,
};

verus! {

/// Version of the Dashboard read-model objects.
pub const DASHBOARD_SCHEMA_VERSION: u32 = 1;

/// A copy of an optional text.
pub fn copy_text_option(value: &Option<String>) -> (copy: Option<String>)
    ensures
        copy == *value,
{
    match value {
        Some(text) => Some(text.clone()),
        None => None,
    }
}

/// Task execution lifecycle.
#[derive(Debug, Clone, Copy, PartialEq, Eq, Structural)]
pub enum TaskState {
    Queued,
    Dispatching,
    Working,
    Waiting,
    Reviewing,
    Cancelling,
    DeliveryUnknown,
    Approved,
    Cancelled,
    Failed,
}

/// The public name of a Task state.
pub open spec fn task_state_name(state: TaskState) -> Seq<char> {
    match state {
        TaskState::Queued => "queued"@,
        TaskState::Dispatching => "dispatching"@,
        TaskState::Working => "working"@,
        TaskState::Waiting => "waiting"@,
        TaskState::Reviewing => "reviewing"@,
        TaskState::Cancelling => "cancelling"@,
        TaskState::DeliveryUnknown => "delivery_unknown"@,
        TaskState::Approved => "approved"@,
        TaskState::Cancelled => "cancelled"@,
        TaskState::Failed => "failed"@,
    }
}

impl TaskState {
    /// Returns the public name of this state.
    pub fn as_str(&self) -> (name: &'static str)
        ensures
            name@ == task_state_name(*self),
    {
        match self {
            TaskState::Queued => "queued",
            TaskState::Dispatching => "dispatching",
            TaskState::Working => "working",
            TaskState::Waiting => "waiting",
            TaskState::Reviewing => "reviewing",
            TaskState::Cancelling => "cancelling",
            TaskState::DeliveryUnknown => "delivery_unknown",
            TaskState::Approved => "approved",
            TaskState::Cancelled => "cancelled",
            TaskState::Failed => "failed",
        }
    }
}

/// Dependency readiness, distinct from the execution lifecycle.
#[derive(Debug, Clone, Copy, PartialEq, Eq, Structural)]
pub enum TaskSchedulingState {
    /// At least one declared condition is unsatisfied.
    Blocked,
    /// Every declared condition is satisfied.
    Ready,
}

/// Live presence of a Harness Session.
#[derive(Debug, Clone, Copy, PartialEq, Eq, Structural)]
pub enum HarnessPresence {
    Online,
    Offline,
}

/// The public name of a presence.
pub open spec fn presence_name(presence: HarnessPresence) -> Seq<char> {
    match presence {
        HarnessPresence::Online => "online"@,
        HarnessPresence::Offline => "offline"@,
    }
}

impl HarnessPresence {
    /// Returns the public name of this presence.
    pub fn as_str(&self) -> (name: &'static str)
        ensures
            name@ == presence_name(*self),
    {
        match self {
            HarnessPresence::Online => "online",
            HarnessPresence::Offline => "offline",
        }
    }
}

/// Latest normalized Host activity of a Harness Session.
#[derive(Debug, Clone, Copy, PartialEq, Eq, Structural)]
pub enum HarnessActivity {
    Starting,
    Idle,
    Working,
    Waiting,
    Reviewing,
    Cancelling,
    DeliveryUnknown,
    Stopping,
    Stopped,
    Failed,
}

/// The public name of an activity.
pub open spec fn activity_name(activity: HarnessActivity) -> Seq<char> {
    match activity {
        HarnessActivity::Starting => "starting"@,
        HarnessActivity::Idle => "idle"@,
        HarnessActivity::Working => "working"@,
        HarnessActivity::Waiting => "waiting"@,
        HarnessActivity::Reviewing => "reviewing"@,
        HarnessActivity::Cancelling => "cancelling"@,
        HarnessActivity::DeliveryUnknown => "delivery_unknown"@,
        HarnessActivity::Stopping => "stopping"@,
        HarnessActivity::Stopped => "stopped"@,
        HarnessActivity::Failed => "failed"@,
    }
}

impl HarnessActivity {
    /// Returns the public name of this activity.
    pub fn as_str(&self) -> (name: &'static str)
        ensures
            name@ == activity_name(*self),
    {
        match self {
            HarnessActivity::Starting => "starting",
            HarnessActivity::Idle => "idle",
            HarnessActivity::Working => "working",
            HarnessActivity::Waiting => "waiting",
            HarnessActivity::Reviewing => "reviewing",
            HarnessActivity::Cancelling => "cancelling",
            HarnessActivity::DeliveryUnknown => "delivery_unknown",
            HarnessActivity::Stopping => "stopping",
            HarnessActivity::Stopped => "stopped",
            HarnessActivity::Failed => "failed",
        }
    }
}

/// Durable presence and inbox summary of one Harness.
#[derive(Debug, PartialEq, Eq)]
pub struct HarnessStatusView {
    pub id: HarnessId,
    pub tier: HarnessTier,
    pub presence: String,
    pub activity: String,
    pub unread_messages: u32,
    pub active_task_id: Option<TaskId>,
}

/// Durable lifecycle and Session binding of one Task.
#[derive(Debug, PartialEq, Eq)]
pub struct TaskView {
    pub id: TaskId,
    pub worker_id: HarnessId,
    pub state: TaskState,
    pub result_revision: u32,
    pub task_role: TaskRole,
    pub requested_session_policy: SessionReusePolicy,
    pub effective_session_policy: Option<SessionReusePolicy>,
    pub harness_session_id: Option<HarnessSessionId>,
    pub session_reused: Option<bool>,
    pub session_decision_reason: Option<String>,
    pub context_percent: Option<String>,
}

impl Clone for TaskView {
    fn clone(&self) -> (copy: Self)
        ensures
            copy == *self,
    {
        TaskView {
            id: self.id,
            worker_id: self.worker_id.duplicate(),
            state: self.state,
            result_revision: self.result_revision,
            task_role: self.task_role,
            requested_session_policy: self.requested_session_policy,
            effective_session_policy: self.effective_session_policy,
            harness_session_id: self.harness_session_id,
            session_reused: self.session_reused,
            session_decision_reason: copy_text_option(&self.session_decision_reason),
            context_percent: copy_text_option(&self.context_percent),
        }
    }
}

/// One scheduling dependency edge as reported by the Task graph.
#[derive(Debug, Clone, Copy, PartialEq, Eq, Structural)]
pub struct TaskDependencyView {
    pub task_id: TaskId,
    pub condition: DependencyCondition,
    pub failure_policy: DependencyFailurePolicy,
    pub satisfied_by_result_revision: Option<u32>,
}

/// One row of the Task graph: a Task with its scheduling evidence.
#[derive(Debug, PartialEq, Eq)]
pub struct TaskGraphView {
    pub task: TaskView,
    pub scheduling_state: TaskSchedulingState,
    pub dependencies: Vec<TaskDependencyView>,
    pub dependents: Vec<TaskId>,
    pub worker_queue_position: Option<u32>,
    pub waiting_for_worker: bool,
    pub waiting_for_session: bool,
    pub waiting_for_repository: bool,
}

/// A copy of a list of dependency edges.
pub fn copy_dependencies(values: &Vec<TaskDependencyView>) -> (copy: Vec<TaskDependencyView>)
    ensures
        copy@ == values@,
{
    let mut out: Vec<TaskDependencyView> = Vec::new();
    let mut i: usize = 0;
    while i < values.len()
        invariant
            i <= values@.len(),
            out@ == values@.take(i as int),
        decreases values@.len() - i,
    {
        out.push(values[i]);
        assert(values@.take(i + 1) == values@.take(i as int).push(values@[i as int]));
        i = i + 1;
    }
    assert(values@.take(values@.len() as int) == values@);
    out
}

/// A copy of a list of Task identities.
pub fn copy_task_ids(values: &Vec<TaskId>) -> (copy: Vec<TaskId>)
    ensures
        copy@ == values@,
{
    let mut out: Vec<TaskId> = Vec::new();
    let mut i: usize = 0;
    while i < values.len()
        invariant
            i <= values@.len(),
            out@ == values@.take(i as int),
        decreases values@.len() - i,
    {
        out.push(values[i]);
        assert(values@.take(i + 1) == values@.take(i as int).push(values@[i as int]));
        i = i + 1;
    }
    assert(values@.take(values@.len() as int) == values@);
    out
}

impl Clone for TaskGraphView {
    fn clone(&self) -> (copy: Self)
        ensures
            copy.task == self.task,
            copy.scheduling_state == self.scheduling_state,
            copy.dependencies@ == self.dependencies@,
            copy.dependents@ == self.dependents@,
            copy.worker_queue_position == self.worker_queue_position,
            copy.waiting_for_worker == self.waiting_for_worker,
            copy.waiting_for_session == self.waiting_for_session,
            copy.waiting_for_repository == self.waiting_for_repository,
    {
        TaskGraphView {
            task: self.task.clone(),
            scheduling_state: self.scheduling_state,
            dependencies: copy_dependencies(&self.dependencies),
            dependents: copy_task_ids(&self.dependents),
            worker_queue_position: self.worker_queue_position,
            waiting_for_worker: self.waiting_for_worker,
            waiting_for_session: self.waiting_for_session,
            waiting_for_repository: self.waiting_for_repository,
        }
    }
}

/// One unresolved Worktree Hold.
#[derive(Debug, PartialEq, Eq)]
pub struct HoldView {
    pub id: WorktreeHoldId,
    pub repository_key: String,
    pub task_id: TaskId,
    pub reason: String,
}

impl Clone for HoldView {
    fn clone(&self) -> (copy: Self)
        ensures
            copy == *self,
    {
        HoldView {
            id: self.id,
            repository_key: self.repository_key.clone(),
            task_id: self.task_id,
            reason: self.reason.clone(),
        }
    }
}

/// Kind of a durable Supervisor attention fact.
#[derive(Debug, Clone, Copy, PartialEq, Eq, Structural)]
pub enum SupervisorEventKind {
    ResultReady,
    BlockingQuestion,
    TaskFailed,
    DeliveryUnknown,
    WorktreeHoldCreated,
    TaskGraphCompleted,
    Notification,
}

/// One durable, deduplicated Supervisor attention record.
#[derive(Debug, Clone, PartialEq, Eq)]
pub struct SupervisorEventView {
    pub kind: SupervisorEventKind,
    pub source_key: String,
    pub task_id: Option<TaskId>,
}

/// Live Supervisor summary of the Dashboard.
#[derive(Debug, Clone, PartialEq, Eq)]
pub struct DashboardSupervisorView {
    pub schema_version: u32,
    pub id: HarnessId,
    pub session_id: HarnessSessionId,
    pub presence: HarnessPresence,
    pub activity: HarnessActivity,
    pub unread_messages: u32,
    pub attention_count: u32,
    pub terminal_id: Option<String>,
    pub pane_id: Option<String>,
}

/// Latest normalized Host activity of a Session.
#[derive(Debug, Clone, PartialEq, Eq)]
pub struct HostActivityView {
    pub summary: String,
    pub observed_at: String,
}

/// Latest live Session of a Worker on the Dashboard.
#[derive(Debug, Clone, PartialEq, Eq)]
pub struct DashboardSessionView {
    pub schema_version: u32,
    pub id: HarnessSessionId,
    pub presence: HarnessPresence,
    pub activity: HarnessActivity,
    pub native_health: NativeSessionHealth,
    pub context_tokens: Option<u64>,
    pub context_window: Option<u64>,
    pub context_percent: Option<String>,
    pub compaction_count: Option<u32>,
    pub context_observed_at: Option<String>,
    pub last_seen_at: String,
    pub terminal_id: Option<String>,
    pub pane_id: Option<String>,
    pub last_activity: Option<HostActivityView>,
}

/// One Task graph row with its title on the Dashboard.
#[derive(Debug, Clone, PartialEq, Eq)]
pub struct DashboardTaskView {
    pub schema_version: u32,
    pub title: String,
    pub task: TaskView,
    pub scheduling_state: TaskSchedulingState,
    pub dependencies: Vec<TaskDependencyView>,
    pub dependents: Vec<TaskId>,
    pub worker_queue_position: Option<u32>,
    pub waiting_for_worker: bool,
    pub waiting_for_session: bool,
    pub waiting_for_repository: bool,
}

/// One top-level Worker on the Dashboard.
#[derive(Debug, Clone, PartialEq, Eq)]
pub struct DashboardWorkerView {
    pub schema_version: u32,
    pub id: HarnessId,
    pub kind: HarnessKind,
    pub launch_profile: Option<String>,
    pub model: Option<String>,
    pub session: Option<DashboardSessionView>,
    pub unread_messages: u32,
    pub active_task: Option<DashboardTaskView>,
    pub queued_tasks: Vec<DashboardTaskView>,
    pub holds: Vec<HoldView>,
    pub attention_events: Vec<SupervisorEventView>,
}

/// One coherent Supervisor Dashboard snapshot.
#[derive(Debug, Clone, PartialEq, Eq)]
pub struct DashboardView {
    pub schema_version: u32,
    pub generated_at: String,
    pub supervisor: DashboardSupervisorView,
    pub workers: Vec<DashboardWorkerView>,
    pub attention_events: Vec<SupervisorEventView>,
}

} // verus!
