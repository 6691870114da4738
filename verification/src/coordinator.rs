//! The Coordinator's request vocabulary: stable error categories, authenticated actors, and
//! the commands and queries that transports carry.
use vstd::prelude::*;
use crate::contract::{
    field_failure, HarnessId, HarnessSessionId, MessageSubmissionV1, ObservationCheckpoint, ResultManifestV1, TaskId, TaskSubmissionV1,
    ValidationError, ValidationErrorView,
};
use crate::text::{is_sha256_hex, sha256_hex_ok, utf8_bytes};

verus! {

/// Stable public error categories shared by every transport.
#[derive(Debug, Clone, Copy, PartialEq, Eq, Structural)]
pub enum ErrorCategory {
    InvalidInput,
    Unauthenticated,
    Forbidden,
    NotFound,
    Conflict,
    InvalidState,
    TargetOffline,
    UnsupportedVersion,
    RepositoryBlocked,
    DeliveryUnknown,
    StorageFailure,
    AdapterFailure,
    HerdrFailure,
}

/// The public (wire) name of an error category.
pub open spec fn category_name(category: ErrorCategory) -> Seq<char> {
    match category {
        ErrorCategory::InvalidInput => "invalid_input"@,
        ErrorCategory::Unauthenticated => "unauthenticated"@,
        ErrorCategory::Forbidden => "forbidden"@,
        ErrorCategory::NotFound => "not_found"@,
        ErrorCategory::Conflict => "conflict"@,
        ErrorCategory::InvalidState => "invalid_state"@,
        ErrorCategory::TargetOffline => "target_offline"@,
        ErrorCategory::UnsupportedVersion => "unsupported_version"@,
        ErrorCategory::RepositoryBlocked => "repository_blocked"@,
        ErrorCategory::DeliveryUnknown => "delivery_unknown"@,
        ErrorCategory::StorageFailure => "storage_failure"@,
        ErrorCategory::AdapterFailure => "adapter_failure"@,
        ErrorCategory::HerdrFailure => "herdr_failure"@,
    }
}

/// The variant name of an error category, as diagnostics print it.
pub open spec fn category_label(category: ErrorCategory) -> Seq<char> {
    match category {
        ErrorCategory::InvalidInput => "InvalidInput"@,
        ErrorCategory::Unauthenticated => "Unauthenticated"@,
        ErrorCategory::Forbidden => "Forbidden"@,
        ErrorCategory::NotFound => "NotFound"@,
        ErrorCategory::Conflict => "Conflict"@,
        ErrorCategory::InvalidState => "InvalidState"@,
        ErrorCategory::TargetOffline => "TargetOffline"@,
        ErrorCategory::UnsupportedVersion => "UnsupportedVersion"@,
        ErrorCategory::RepositoryBlocked => "RepositoryBlocked"@,
        ErrorCategory::DeliveryUnknown => "DeliveryUnknown"@,
        ErrorCategory::StorageFailure => "StorageFailure"@,
        ErrorCategory::AdapterFailure => "AdapterFailure"@,
        ErrorCategory::HerdrFailure => "HerdrFailure"@,
    }
}

impl ErrorCategory {
    /// Returns the public (wire) name of this category.
    pub fn as_str(&self) -> (name: &'static str)
        ensures
            name@ == category_name(*self),
    {
        match self {
            ErrorCategory::InvalidInput => "invalid_input",
            ErrorCategory::Unauthenticated => "unauthenticated",
            ErrorCategory::Forbidden => "forbidden",
            ErrorCategory::NotFound => "not_found",
            ErrorCategory::Conflict => "conflict",
            ErrorCategory::InvalidState => "invalid_state",
            ErrorCategory::TargetOffline => "target_offline",
            ErrorCategory::UnsupportedVersion => "unsupported_version",
            ErrorCategory::RepositoryBlocked => "repository_blocked",
            ErrorCategory::DeliveryUnknown => "delivery_unknown",
            ErrorCategory::StorageFailure => "storage_failure",
            ErrorCategory::AdapterFailure => "adapter_failure",
            ErrorCategory::HerdrFailure => "herdr_failure",
        }
    }

    /// Returns the variant name of this category, as diagnostics print it.
    pub fn label(&self) -> (name: &'static str)
        ensures
            name@ == category_label(*self),
    {
        match self {
            ErrorCategory::InvalidInput => "InvalidInput",
            ErrorCategory::Unauthenticated => "Unauthenticated",
            ErrorCategory::Forbidden => "Forbidden",
            ErrorCategory::NotFound => "NotFound",
            ErrorCategory::Conflict => "Conflict",
            ErrorCategory::InvalidState => "InvalidState",
            ErrorCategory::TargetOffline => "TargetOffline",
            ErrorCategory::UnsupportedVersion => "UnsupportedVersion",
            ErrorCategory::RepositoryBlocked => "RepositoryBlocked",
            ErrorCategory::DeliveryUnknown => "DeliveryUnknown",
            ErrorCategory::StorageFailure => "StorageFailure",
            ErrorCategory::AdapterFailure => "AdapterFailure",
            ErrorCategory::HerdrFailure => "HerdrFailure",
        }
    }
}

/// A Session bearer in the v1 capability shape: 64 lowercase hexadecimal characters.
pub open spec fn is_bearer(text: Seq<char>) -> bool {
    is_sha256_hex(utf8_bytes(text))
}

/// The error reported for a bearer that is not in the v1 capability shape.
pub open spec fn bearer_failure() -> ValidationErrorView {
    field_failure("bearer"@, "must be 64 lowercase hexadecimal characters"@)
}

/// A Session capability: the bearer that authenticates one live Harness Session.
#[derive(Debug)]
pub struct SessionCapability(String);

impl View for SessionCapability {
    type V = Seq<char>;

    closed spec fn view(&self) -> Seq<char> {
        self.0@
    }
}

impl SessionCapability {
    #[verifier::type_invariant]
    spec fn well_formed(self) -> bool {
        is_bearer(self.0@)
    }

    /// Accepts a bearer only in the v1 capability shape.
    pub fn from_bearer(bearer: String) -> (result: Result<SessionCapability, ValidationError>)
        ensures
            match result {
                Ok(capability) => is_bearer(bearer@) && capability@ == bearer@,
                Err(error) => !is_bearer(bearer@) && error@ == bearer_failure(),
            },
    {
        if sha256_hex_ok(bearer.as_str()) {
            Ok(SessionCapability(bearer))
        } else {
            Err(crate::contract::field_error("bearer", "must be 64 lowercase hexadecimal characters"))
        }
    }

    /// The bearer text.
    pub fn as_str(&self) -> (text: &str)
        ensures
            text@ == self@,
            is_bearer(text@),
    {
        proof {
            use_type_invariant(self);
        }
        self.0.as_str()
    }

    /// A copy of this capability.
    pub fn duplicate(&self) -> (copy: SessionCapability)
        ensures
            copy == *self,
    {
        proof {
            use_type_invariant(self);
        }
        SessionCapability(self.0.clone())
    }
}

impl Clone for SessionCapability {
    fn clone(&self) -> (copy: Self)
        ensures
            copy == *self,
    {
        self.duplicate()
    }
}

/// The authenticated origin of a Coordinator call.
#[derive(Debug, Clone)]
pub enum ActorContext {
    /// The unauthenticated bootstrap actor, which may only register a Supervisor.
    Bootstrap,
    /// A live Harness Session, identified by its capability.
    Session { capability: SessionCapability },
}

/// A read-only Coordinator query carried by the transports of this crate.
#[derive(Debug, Clone, Copy, PartialEq, Eq, Structural)]
pub enum CoordinatorQuery {
    /// Durable Harnesses.
    ListHarnesses,
    /// Durable Harnesses with live status.
    HarnessStatus,
    /// Durable Tasks and lifecycle states.
    ListTasks,
    /// Unread Messages for the caller.
    Inbox,
    /// The caller's own Session.
    SessionSelf,
    /// The Supervisor's Dashboard.
    Dashboard,
    /// The Supervisor's Task graph: scheduling, dependency, and wait state of every Task.
    TaskGraph,
    /// Durable Supervisor Events awaiting the Supervisor's attention.
    SupervisorEvents,
}

/// How the Supervisor settles a Supervisor Event whose delivery is `unknown`.
#[derive(Debug, Clone, Copy, PartialEq, Eq, Structural)]
pub enum EventResolution {
    /// Deliver the event again.
    Retry,
    /// The Supervisor has processed the event.
    Processed,
    /// The event needs no further delivery.
    Cancel,
}

/// A state-changing Coordinator command carried by the transports of this crate.
#[derive(Debug, Clone)]
pub enum CoordinatorCommand {
    /// Create a bounded Task for an explicit Worker.
    CreateTask { submission: TaskSubmissionV1 },
    /// Send a routed Message.
    SendMessage { submission: MessageSubmissionV1 },
    /// Submit one Result candidate for a native turn.
    CompleteTask { manifest: ResultManifestV1, native_turn_id: String },
    /// Approve a Result revision against repository evidence.
    ApproveTask { task_id: TaskId, result_revision: u32, observation_digest: String },
    /// Cancel a queued or active Task.
    CancelTask { task_id: TaskId },
    /// Clear a digest-confirmed Worktree Hold.
    ClearWorktreeHold { task_id: TaskId, observation_digest: String, audit_note: String },
    /// Stop one Worker Host.
    StopWorker { worker_id: HarnessId },
    /// Bind a live Session to the terminal and pane that show it.
    RecordPaneLocation { session_id: HarnessSessionId, terminal_id: String, pane_id: String },
    /// Capture repository evidence for a Task at a checkpoint.
    CaptureRepositoryObservation { task_id: TaskId, checkpoint: ObservationCheckpoint },
    /// A Worker Host settled a cancellation, cooperatively or not.
    RecordCancellationCompleted { task_id: TaskId, succeeded: bool },
    /// A Worker Host observed the end of the native turn that carries a Task.
    RecordTurnCompleted { task_id: TaskId, native_turn_id: String, succeeded: bool },
    /// A Worker Host stopped its native Harness.
    RecordHostStopped { clean: bool },
    /// Admit a regular file as an immutable Attachment.
    CreateAttachment { path: String, media_type: Option<String> },
    /// Register a durable completion watch on an explicit root Task set.
    WatchTaskGraph { root_task_ids: Vec<TaskId> },
    /// Acknowledge Supervisor Events as processed.
    AcknowledgeSupervisorEvents { event_ids: Vec<String> },
    /// Settle one Supervisor Event whose delivery is `unknown`, with an audit note.
    ReconcileSupervisorEvent { event_id: String, resolution: EventResolution, audit_note: String },
}

} // verus!
