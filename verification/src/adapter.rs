//! Provider-neutral view of a native Harness adapter's state.
use vstd::prelude::*;
use crate::contract::NativeSessionHealth;

verus! {

/// Lifecycle of a native Harness as reported by its adapter.
#[derive(Debug, Clone, Copy, PartialEq, Eq, Structural)]
pub enum AdapterLifecycle {
    /// The provider process is starting.
    Starting,
    /// Online with no active native turn.
    Idle,
    /// Online with an active native turn.
    Working,
    /// Stopping the provider process.
    Stopping,
    /// The provider process is not running.
    Stopped,
    /// The provider failed.
    Failed,
}

/// One snapshot of native adapter state consulted by Coordinator decisions.
#[derive(Debug, Clone, PartialEq, Eq)]
pub struct AdapterSnapshot {
    /// Adapter lifecycle.
    pub lifecycle: AdapterLifecycle,
    /// Native session identity.
    pub session_id: Option<String>,
    /// Native thread identity.
    pub thread_id: Option<String>,
    /// Active native turn identity.
    pub active_turn_id: Option<String>,
    /// Whether the active turn accepts steering input.
    pub steerable: bool,
    /// Native inputs queued behind the active turn.
    pub queued_input_count: Option<u32>,
    /// Effective native model.
    pub model: Option<String>,
    /// Native conversation health.
    pub native_health: NativeSessionHealth,
    /// Tokens in the native context.
    pub context_tokens: Option<u64>,
    /// Size of the native context window.
    pub context_window: Option<u64>,
    /// Number of native compactions.
    pub compaction_count: Option<u32>,
}

/// Names of the native tools through which a Worker records evidence and its Result.
#[derive(Debug, Clone, Copy, PartialEq, Eq)]
pub struct WorkerCompletionTools {
    /// Tool that admits an immutable Attachment.
    pub attachment_create: &'static str,
    /// Tool that submits the Result candidate.
    pub complete: &'static str,
}

} // verus!
