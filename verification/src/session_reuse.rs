//! Conservative, deterministic Worker Session reuse decisions.
use vstd::prelude::*;
use vstd::string::*;
use crate::adapter::{AdapterLifecycle, AdapterSnapshot};
use crate::contract::{
    HarnessSessionId, NativeSessionHealth, SessionReusePolicy, TaskRole, TaskSubmissionV1,
};

verus! {

/// Identity and safety evidence resolved by the Coordinator before native delivery.
#[derive(Debug, Clone, PartialEq, Eq)]
pub struct SessionReuseCandidate {
    pub session_id: HarnessSessionId,
    pub same_worker: bool,
    pub same_harness_kind: bool,
    pub same_launch_profile: bool,
    pub same_repository: bool,
    pub same_tool_policy: bool,
    pub compatible_model: bool,
    pub has_active_task: bool,
    pub has_unresolved_question: bool,
    pub has_delivery_unknown: bool,
    pub has_unresolved_cancellation: bool,
    pub has_session_worktree_hold: bool,
    pub native_protocol_unambiguous: bool,
    pub previously_bound: bool,
    pub adapter: AdapterSnapshot,
}

/// Auditable output of one Session selection decision.
#[derive(Debug, Clone, PartialEq, Eq)]
pub struct SessionReuseDecision {
    pub reusable: bool,
    pub effective_policy: SessionReusePolicy,
    pub reason_code: String,
    pub reason: String,
}

/// The mathematical value of a [`SessionReuseDecision`].
pub struct DecisionView {
    pub reusable: bool,
    pub effective_policy: SessionReusePolicy,
    pub reason_code: Seq<char>,
    pub reason: Seq<char>,
}

impl View for SessionReuseDecision {
    type V = DecisionView;

    open spec fn view(&self) -> DecisionView {
        DecisionView {
            reusable: self.reusable,
            effective_policy: self.effective_policy,
            reason_code: self.reason_code@,
            reason: self.reason@,
        }
    }
}

/// How `auto` resolves: review and verification start fresh; implementation related to
/// another Task or depending on one prefers reuse; everything else starts fresh. Explicit
/// policies are kept.
pub open spec fn resolved_policy(task: TaskSubmissionV1) -> SessionReusePolicy {
    if task.session_reuse != SessionReusePolicy::Auto {
        task.session_reuse
    } else {
        match task.task_role {
            TaskRole::Review | TaskRole::Verification => SessionReusePolicy::Fresh,
            TaskRole::Implementation => if task.related_task_id is Some
                || task.depends_on@.len() > 0 {
                SessionReusePolicy::Prefer
            } else {
                SessionReusePolicy::Fresh
            },
            _ => SessionReusePolicy::Fresh,
        }
    }
}

/// A rejection with its effective policy, reason code, and reason.
pub open spec fn rejection(
    policy: SessionReusePolicy,
    code: Seq<char>,
    reason: Seq<char>,
) -> DecisionView {
    DecisionView { reusable: false, effective_policy: policy, reason_code: code, reason }
}

/// The first failed identity or safety gate of a candidate, in audit order, as a reason code
/// and reason.
pub open spec fn failed_gate(c: SessionReuseCandidate) -> Option<(Seq<char>, Seq<char>)> {
    if !c.same_worker {
        Some(("worker_mismatch"@, "Worker definition differs"@))
    } else if !c.same_harness_kind {
        Some(("kind_mismatch"@, "Harness kind differs"@))
    } else if !c.same_launch_profile {
        Some(("profile_mismatch"@, "launch-profile snapshot differs"@))
    } else if !c.same_repository {
        Some(("repository_mismatch"@, "canonical repository differs"@))
    } else if !c.same_tool_policy {
        Some(("tool_policy_mismatch"@, "effective tool policy differs"@))
    } else if !c.compatible_model {
        Some(("model_mismatch"@, "effective model is incompatible"@))
    } else if c.adapter.lifecycle != AdapterLifecycle::Idle {
        Some(("session_not_idle"@, "Session is not Online and Idle"@))
    } else if c.has_active_task {
        Some(("active_task"@, "Session already has an active Task"@))
    } else if c.has_unresolved_question {
        Some(("unresolved_question"@, "Session has an unresolved Question"@))
    } else if c.has_delivery_unknown {
        Some(("delivery_unknown"@, "Session has ambiguous delivery"@))
    } else if c.has_unresolved_cancellation {
        Some(("unresolved_cancellation"@, "Session has unresolved cancellation"@))
    } else if c.has_session_worktree_hold {
        Some(("worktree_hold"@, "Session caused an unresolved Worktree Hold"@))
    } else if !c.native_protocol_unambiguous {
        Some(("protocol_ambiguous"@, "native protocol state is ambiguous"@))
    } else {
        None
    }
}

/// The Session reuse decision for a Task and one candidate: policy first, then the preferred
/// Session, then the identity and safety gates in order, then native health.
pub open spec fn reuse_decision(task: TaskSubmissionV1, c: SessionReuseCandidate) -> DecisionView {
    let policy = resolved_policy(task);
    if policy == SessionReusePolicy::Fresh {
        rejection(policy, "fresh_requested"@, "Task requires a fresh native Session"@)
    } else if task.preferred_session_id is Some && task.preferred_session_id->0 != c.session_id {
        rejection(policy, "preferred_session_mismatch"@, "candidate is not the preferred Session"@)
    } else if let Some((code, reason)) = failed_gate(c) {
        rejection(policy, code, reason)
    } else {
        match c.adapter.native_health {
            NativeSessionHealth::Failed => rejection(
                policy,
                "native_failed"@,
                "native Session failed"@,
            ),
            NativeSessionHealth::Ambiguous => rejection(
                policy,
                "native_ambiguous"@,
                "native Session health is ambiguous"@,
            ),
            NativeSessionHealth::ContextPressure => rejection(
                policy,
                "context_pressure"@,
                "native context pressure is unsafe"@,
            ),
            NativeSessionHealth::Compacted if task.session_reuse == SessionReusePolicy::Auto => rejection(
                policy,
                "auto_compacted_fresh"@,
                "automatic reuse starts fresh after compaction"@,
            ),
            _ => DecisionView {
                reusable: true,
                effective_policy: policy,
                reason_code: "compatible_healthy_session"@,
                reason: "compatible healthy idle Session preserves useful Task context"@,
            },
        }
    }
}

/// Every identity and safety gate of the candidate passes.
pub open spec fn all_gates_pass(c: SessionReuseCandidate) -> bool {
    &&& c.same_worker
    &&& c.same_harness_kind
    &&& c.same_launch_profile
    &&& c.same_repository
    &&& c.same_tool_policy
    &&& c.compatible_model
    &&& c.adapter.lifecycle == AdapterLifecycle::Idle
    &&& !c.has_active_task
    &&& !c.has_unresolved_question
    &&& !c.has_delivery_unknown
    &&& !c.has_unresolved_cancellation
    &&& !c.has_session_worktree_hold
    &&& c.native_protocol_unambiguous
}

/// Resolves conservative `auto` behavior without encoding reuse in DAG edges.
pub fn effective_policy(task: &TaskSubmissionV1) -> (policy: SessionReusePolicy)
    ensures
        policy == resolved_policy(*task),
{
    if task.session_reuse != SessionReusePolicy::Auto {
        return task.session_reuse;
    }
    match task.task_role {
        TaskRole::Review | TaskRole::Verification => SessionReusePolicy::Fresh,
        TaskRole::Implementation => if task.related_task_id.is_some() || task.depends_on.len()
            > 0 {
            SessionReusePolicy::Prefer
        } else {
            SessionReusePolicy::Fresh
        },
        TaskRole::Investigation | TaskRole::Other => SessionReusePolicy::Fresh,
    }
}

/// A decision that rejects the candidate.
pub fn reject(effective_policy: SessionReusePolicy, reason_code: &str, reason: &str) -> (decision: SessionReuseDecision)
    ensures
        decision@ == rejection(effective_policy, reason_code@, reason@),
{
    SessionReuseDecision {
        reusable: false,
        effective_policy,
        reason_code: reason_code.to_owned(),
        reason: reason.to_owned(),
    }
}

/// Evaluates one candidate after dependency readiness and Worker selection.
pub fn evaluate_session_reuse(task: &TaskSubmissionV1, candidate: &SessionReuseCandidate) -> (decision: SessionReuseDecision)
    ensures
        decision@ == reuse_decision(*task, *candidate),
{
    let policy = effective_policy(task);
    if policy == SessionReusePolicy::Fresh {
        return reject(policy, "fresh_requested", "Task requires a fresh native Session");
    }
    if let Some(id) = task.preferred_session_id {
        if id.0 != candidate.session_id.0 {
            return reject(
                policy,
                "preferred_session_mismatch",
                "candidate is not the preferred Session",
            );
        }
    }
    let c = candidate;
    if !c.same_worker {
        return reject(policy, "worker_mismatch", "Worker definition differs");
    }
    if !c.same_harness_kind {
        return reject(policy, "kind_mismatch", "Harness kind differs");
    }
    if !c.same_launch_profile {
        return reject(policy, "profile_mismatch", "launch-profile snapshot differs");
    }
    if !c.same_repository {
        return reject(policy, "repository_mismatch", "canonical repository differs");
    }
    if !c.same_tool_policy {
        return reject(policy, "tool_policy_mismatch", "effective tool policy differs");
    }
    if !c.compatible_model {
        return reject(policy, "model_mismatch", "effective model is incompatible");
    }
    if c.adapter.lifecycle != AdapterLifecycle::Idle {
        return reject(policy, "session_not_idle", "Session is not Online and Idle");
    }
    if c.has_active_task {
        return reject(policy, "active_task", "Session already has an active Task");
    }
    if c.has_unresolved_question {
        return reject(policy, "unresolved_question", "Session has an unresolved Question");
    }
    if c.has_delivery_unknown {
        return reject(policy, "delivery_unknown", "Session has ambiguous delivery");
    }
    if c.has_unresolved_cancellation {
        return reject(policy, "unresolved_cancellation", "Session has unresolved cancellation");
    }
    if c.has_session_worktree_hold {
        return reject(policy, "worktree_hold", "Session caused an unresolved Worktree Hold");
    }
    if !c.native_protocol_unambiguous {
        return reject(policy, "protocol_ambiguous", "native protocol state is ambiguous");
    }
    match c.adapter.native_health {
        NativeSessionHealth::Failed => reject(policy, "native_failed", "native Session failed"),
        NativeSessionHealth::Ambiguous => reject(
            policy,
            "native_ambiguous",
            "native Session health is ambiguous",
        ),
        NativeSessionHealth::ContextPressure => reject(
            policy,
            "context_pressure",
            "native context pressure is unsafe",
        ),
        NativeSessionHealth::Compacted if task.session_reuse == SessionReusePolicy::Auto => reject(
            policy,
            "auto_compacted_fresh",
            "automatic reuse starts fresh after compaction",
        ),
        NativeSessionHealth::Healthy | NativeSessionHealth::Compacted => SessionReuseDecision {
            reusable: true,
            effective_policy: policy,
            reason_code: "compatible_healthy_session".to_owned(),
            reason: "compatible healthy idle Session preserves useful Task context".to_owned(),
        },
    }
}

/// A candidate is reused exactly when the Task does not require a fresh Session, the candidate
/// is the preferred Session when one is named, every identity and safety gate passes, and
/// native health is healthy, or compacted under an explicit (not `auto`) request. The decision
/// always records the resolved policy.
pub proof fn reuse_requires_every_gate(task: TaskSubmissionV1, c: SessionReuseCandidate)
    ensures
        reuse_decision(task, c).effective_policy == resolved_policy(task),
        reuse_decision(task, c).reusable <==> {
            &&& resolved_policy(task) != SessionReusePolicy::Fresh
            &&& (task.preferred_session_id is Some ==> task.preferred_session_id->0 == c.session_id)
            &&& all_gates_pass(c)
            &&& (c.adapter.native_health == NativeSessionHealth::Healthy || (
            c.adapter.native_health == NativeSessionHealth::Compacted && task.session_reuse
                != SessionReusePolicy::Auto))
        },
{
}

/// `auto` never resolves to `required`, and review or verification Tasks under `auto` always
/// start fresh.
pub proof fn auto_is_conservative(task: TaskSubmissionV1)
    ensures
        task.session_reuse == SessionReusePolicy::Auto ==> resolved_policy(task)
            != SessionReusePolicy::Required,
        task.session_reuse == SessionReusePolicy::Auto && (task.task_role == TaskRole::Review
            || task.task_role == TaskRole::Verification) ==> resolved_policy(task)
            == SessionReusePolicy::Fresh,
        task.session_reuse != SessionReusePolicy::Auto ==> resolved_policy(task)
            == task.session_reuse,
{
}


/// Under `auto`, only an implementation Task related to another Task or depending on one
/// prefers reuse; every other `auto` Task resolves to `fresh`, and its decision refuses every
/// candidate as `fresh_requested`. An explicit policy is kept as given.
pub proof fn auto_prefers_reuse_only_for_related_implementation(
    task: TaskSubmissionV1,
    c: SessionReuseCandidate,
)
    ensures
        task.session_reuse == SessionReusePolicy::Auto ==> (resolved_policy(task)
            == SessionReusePolicy::Prefer <==> task.task_role == TaskRole::Implementation && (
        task.related_task_id is Some || task.depends_on@.len() > 0)),
        task.session_reuse == SessionReusePolicy::Auto && !(task.task_role
            == TaskRole::Implementation && (task.related_task_id is Some || task.depends_on@.len()
            > 0)) ==> {
            &&& resolved_policy(task) == SessionReusePolicy::Fresh
            &&& reuse_decision(task, c).effective_policy == SessionReusePolicy::Fresh
            &&& !reuse_decision(task, c).reusable
            &&& reuse_decision(task, c).reason_code == "fresh_requested"@
        },
        task.session_reuse == SessionReusePolicy::Auto ==> (resolved_policy(task)
            == SessionReusePolicy::Prefer || resolved_policy(task) == SessionReusePolicy::Fresh),
        task.session_reuse != SessionReusePolicy::Auto ==> resolved_policy(task)
            == task.session_reuse,
        task.session_reuse == SessionReusePolicy::Fresh ==> !reuse_decision(task, c).reusable,
{
}


/// A reused candidate is recorded as a compatible healthy Session; a refused one names its
/// reason: a fresh policy before anything else, then a candidate other than the preferred
/// Session, then a Worker mismatch before the other gates, and, once every gate passes, the
/// native health that forbids reuse. Every decision records the resolved policy.
pub proof fn decisions_name_their_reason(task: TaskSubmissionV1, c: SessionReuseCandidate)
    ensures
        reuse_decision(task, c).reusable ==> reuse_decision(task, c).reason_code
            == "compatible_healthy_session"@,
        resolved_policy(task) == SessionReusePolicy::Fresh ==> reuse_decision(task, c).reason_code
            == "fresh_requested"@,
        resolved_policy(task) != SessionReusePolicy::Fresh && task.preferred_session_id is Some
            && task.preferred_session_id->0 != c.session_id ==> !reuse_decision(task, c).reusable && reuse_decision(
            task,
            c,
        ).reason_code == "preferred_session_mismatch"@,
        resolved_policy(task) != SessionReusePolicy::Fresh && (task.preferred_session_id is Some
            ==> task.preferred_session_id->0 == c.session_id) && !c.same_worker ==> reuse_decision(
            task,
            c,
        ).reason_code == "worker_mismatch"@,
        resolved_policy(task) != SessionReusePolicy::Fresh && (task.preferred_session_id is Some
            ==> task.preferred_session_id->0 == c.session_id) && all_gates_pass(c) ==> {
            &&& c.adapter.native_health == NativeSessionHealth::Failed ==> reuse_decision(
                task,
                c,
            ).reason_code == "native_failed"@
            &&& c.adapter.native_health == NativeSessionHealth::Ambiguous ==> reuse_decision(
                task,
                c,
            ).reason_code == "native_ambiguous"@
            &&& c.adapter.native_health == NativeSessionHealth::ContextPressure ==> reuse_decision(
                task,
                c,
            ).reason_code == "context_pressure"@
            &&& c.adapter.native_health == NativeSessionHealth::Compacted && task.session_reuse
                == SessionReusePolicy::Auto ==> reuse_decision(task, c).reason_code
                == "auto_compacted_fresh"@
            &&& c.adapter.native_health == NativeSessionHealth::Healthy ==> reuse_decision(
                task,
                c,
            ).reusable
        },
{
}

} // verus!
