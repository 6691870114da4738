//! Identity-bound MCP 2025-06-18 bridge for Coordinator tools: message dispatch, tool routing,
//! and the shaping of broker outcomes into tool results.
//!
//! Reading and writing JSON-RPC frames, and decoding tool arguments, stand outside this module.
use vstd::prelude::*;
use vstd::string::*;
use crate::broker::{
    needs_v2, request_version, BrokerOperation, BrokerRequest, BrokerResponse, ResponseView,
    BROKER_SCHEMA_V1, BROKER_SCHEMA_V2,
};
use crate::contract::{
    fresh_uuid_text, is_uuid_v7, uuid_text, HarnessId, MessageSubmissionV1, ResultManifestV1, TaskId,
    TaskSubmissionV1, ValidationError,
};
use crate::coordinator::{
    bearer_failure, category_label, is_bearer, ActorContext, CoordinatorCommand,
    CoordinatorQuery, EventResolution, SessionCapability,
};
use crate::text::str_equals;

verus! {

/// MCP revision implemented by the stdio bridge.
pub const MCP_PROTOCOL_VERSION: &'static str = "2025-06-18";

/// Server name reported by `initialize`.
pub const MCP_SERVER_NAME: &'static str = "herdr-harness-coordinator";

/// Instructions reported by `initialize`.
pub const MCP_INSTRUCTIONS: &'static str = "Use these tools only for the current identity-bound Harness Session.";

/// JSON-RPC code for a frame that is not a valid request (here: over the framing limit).
pub const INVALID_REQUEST: i32 = -32600;

/// JSON-RPC code for a frame that does not parse as JSON.
pub const PARSE_ERROR: i32 = -32700;

/// JSON-RPC code for an unknown method.
pub const METHOD_NOT_FOUND: i32 = -32601;

/// One identity-bound MCP server: every call it makes is attributed to one Harness Session.
#[derive(Debug, Clone)]
pub struct McpServer {
    socket: String,
    capability: SessionCapability,
}

impl McpServer {
    /// Creates a bridge whose every call is attributed to one Harness Session.
    pub fn new(socket: String, capability: SessionCapability) -> (server: McpServer)
        ensures
            server.socket_path() == socket@,
            server.bearer() == capability@,
    {
        McpServer { socket, capability }
    }

    /// The broker socket path.
    pub closed spec fn socket_path(&self) -> Seq<char> {
        self.socket@
    }

    /// The bearer of the Session this bridge speaks for.
    pub closed spec fn bearer(&self) -> Seq<char> {
        self.capability@
    }

    /// The broker socket path.
    pub fn socket(&self) -> (path: &str)
        ensures
            path@ == self.socket_path(),
    {
        self.socket.as_str()
    }

    /// The capability this bridge speaks with.
    pub fn capability(&self) -> (capability: &SessionCapability)
        ensures
            capability@ == self.bearer(),
    {
        &self.capability
    }

    /// The broker request that carries `operation` for this bridge's Session under the
    /// correlation `request_id`, in the first envelope version that carries the operation.
    pub fn request_with_id(&self, operation: ToolOperation, request_id: String) -> (request: BrokerRequest)
        ensures
            request.schema_version == if needs_v2(request.operation) {
                BROKER_SCHEMA_V2
            } else {
                BROKER_SCHEMA_V1
            },
            request.request_id == request_id,
            match (operation, request.operation) {
                (ToolOperation::Execute(command), BrokerOperation::Execute { actor, command: sent }) =>
                    sent == command && (actor matches ActorContext::Session { capability }
                        && capability@ == self.bearer()),
                (ToolOperation::Query(query), BrokerOperation::Query { actor, query: sent }) =>
                    sent == query && (actor matches ActorContext::Session { capability }
                        && capability@ == self.bearer()),
                _ => false,
            },
    {
        let actor = ActorContext::Session { capability: self.capability.duplicate() };
        let operation = match operation {
            ToolOperation::Execute(command) => BrokerOperation::Execute { actor, command },
            ToolOperation::Query(query) => BrokerOperation::Query { actor, query },
        };
        let schema_version = request_version(&operation);
        BrokerRequest { schema_version, request_id, operation }
    }

    /// The broker request that carries `operation` for this bridge's Session under a fresh
    /// UUIDv7 correlation.
    pub fn broker_request(&self, operation: ToolOperation) -> (request: BrokerRequest)
        ensures
            request.schema_version == if needs_v2(request.operation) {
                BROKER_SCHEMA_V2
            } else {
                BROKER_SCHEMA_V1
            },
            exists|value: u128|
                is_uuid_v7(value) && request.request_id@ == #[trigger] uuid_text(value),
            match (operation, request.operation) {
                (ToolOperation::Execute(command), BrokerOperation::Execute { actor, command: sent }) =>
                    sent == command && (actor matches ActorContext::Session { capability }
                        && capability@ == self.bearer()),
                (ToolOperation::Query(query), BrokerOperation::Query { actor, query: sent }) =>
                    sent == query && (actor matches ActorContext::Session { capability }
                        && capability@ == self.bearer()),
                _ => false,
            },
    {
        let request_id = fresh_uuid_text();
        self.request_with_id(operation, request_id)
    }
}

/// Builds a bridge for a Session bearer, which must have the v1 capability shape.
pub fn from_bearer(socket: &str, bearer: String) -> (result: Result<McpServer, ValidationError>)
    ensures
        match result {
            Ok(server) => is_bearer(bearer@) && server.bearer() == bearer@ && server.socket_path()
                == socket@,
            Err(error) => !is_bearer(bearer@) && error@ == bearer_failure(),
        },
{
    match SessionCapability::from_bearer(bearer) {
        Ok(capability) => Ok(McpServer::new(socket.to_owned(), capability)),
        Err(error) => Err(error),
    }
}

/// What a decoded MCP message asks of the bridge.
#[derive(Debug, Clone, Copy, PartialEq, Eq, Structural)]
pub enum McpDispatch {
    /// A message without `id`: no response is written.
    Notification,
    /// `initialize`: report the protocol revision, capabilities, and server identity.
    Initialize,
    /// `ping`: an empty result.
    Ping,
    /// `tools/list`: the tool catalog.
    ListTools,
    /// `tools/call`: route one tool call to the Coordinator.
    CallTool,
    /// Any other method: a `METHOD_NOT_FOUND` protocol error.
    MethodNotFound,
}

/// The dispatch of a message with or without an `id`, whose `method` is the given string (a
/// missing or non-string `method` reads as empty).
pub open spec fn dispatch_of(has_id: bool, method: Seq<char>) -> McpDispatch {
    if !has_id {
        McpDispatch::Notification
    } else if method == "initialize"@ {
        McpDispatch::Initialize
    } else if method == "ping"@ {
        McpDispatch::Ping
    } else if method == "tools/list"@ {
        McpDispatch::ListTools
    } else if method == "tools/call"@ {
        McpDispatch::CallTool
    } else {
        McpDispatch::MethodNotFound
    }
}

/// Decides what a decoded MCP message asks of the bridge.
pub fn dispatch(has_id: bool, method: Option<&str>) -> (decision: McpDispatch)
    ensures
        decision == dispatch_of(
            has_id,
            match method {
                Some(m) => m@,
                None => Seq::empty(),
            },
        ),
{
    let method = match method {
        Some(m) => m,
        None => "",
    };
    proof {
        reveal_strlit("");
        assert(""@ =~= Seq::<char>::empty());
    }
    if !has_id {
        McpDispatch::Notification
    } else if str_equals(method, "initialize") {
        McpDispatch::Initialize
    } else if str_equals(method, "ping") {
        McpDispatch::Ping
    } else if str_equals(method, "tools/list") {
        McpDispatch::ListTools
    } else if str_equals(method, "tools/call") {
        McpDispatch::CallTool
    } else {
        McpDispatch::MethodNotFound
    }
}

/// A message without an `id` is a notification whatever its method: it is never answered.
pub proof fn notifications_are_never_answered(method: Seq<char>)
    ensures
        dispatch_of(false, method) == McpDispatch::Notification,
{
}

/// Whether an MCP frame of `len` bytes is within the framing limit.
pub fn mcp_frame_fits(len: usize) -> (fits: bool)
    ensures
        fits == (len <= crate::broker::MAX_BROKER_FRAME_BYTES),
{
    crate::broker::frame_fits(len)
}

/// A Coordinator operation requested by one tool call.
#[derive(Debug, Clone)]
pub enum ToolOperation {
    /// A state-changing command.
    Execute(CoordinatorCommand),
    /// A read-only query.
    Query(CoordinatorQuery),
}

/// The operation that executes `command`.
pub fn execute(command: CoordinatorCommand) -> (operation: ToolOperation)
    ensures
        operation == ToolOperation::Execute(command),
{
    ToolOperation::Execute(command)
}

/// The operation that runs `query`.
pub fn query(wanted: CoordinatorQuery) -> (operation: ToolOperation)
    ensures
        operation == ToolOperation::Query(wanted),
{
    ToolOperation::Query(wanted)
}

/// The Coordinator tools the bridge offers.
#[derive(Debug, Clone, Copy, PartialEq, Eq, Structural)]
pub enum ToolRoute {
    HarnessList,
    HarnessStatus,
    HarnessInbox,
    TaskCreate,
    TaskGraph,
    TaskGraphWatch,
    Send,
    Request,
    AttachmentCreate,
    Complete,
    TaskApprove,
    TaskCancel,
    HoldClear,
    SupervisorEvents,
    SupervisorEventAck,
    SupervisorEventReconcile,
    Stop,
}

/// The tool with the given name, if any.
pub open spec fn tool_named(name: Seq<char>) -> Option<ToolRoute> {
    if name == "harness_list"@ {
        Some(ToolRoute::HarnessList)
    } else if name == "harness_status"@ {
        Some(ToolRoute::HarnessStatus)
    } else if name == "harness_inbox"@ {
        Some(ToolRoute::HarnessInbox)
    } else if name == "harness_task_create"@ {
        Some(ToolRoute::TaskCreate)
    } else if name == "harness_task_graph"@ {
        Some(ToolRoute::TaskGraph)
    } else if name == "harness_task_graph_watch"@ {
        Some(ToolRoute::TaskGraphWatch)
    } else if name == "harness_send"@ {
        Some(ToolRoute::Send)
    } else if name == "harness_request"@ {
        Some(ToolRoute::Request)
    } else if name == "harness_attachment_create"@ {
        Some(ToolRoute::AttachmentCreate)
    } else if name == "harness_complete"@ {
        Some(ToolRoute::Complete)
    } else if name == "harness_task_approve"@ {
        Some(ToolRoute::TaskApprove)
    } else if name == "harness_task_cancel"@ {
        Some(ToolRoute::TaskCancel)
    } else if name == "harness_hold_clear"@ {
        Some(ToolRoute::HoldClear)
    } else if name == "harness_supervisor_events"@ {
        Some(ToolRoute::SupervisorEvents)
    } else if name == "harness_supervisor_event_ack"@ {
        Some(ToolRoute::SupervisorEventAck)
    } else if name == "harness_supervisor_event_reconcile"@ {
        Some(ToolRoute::SupervisorEventReconcile)
    } else if name == "harness_stop"@ {
        Some(ToolRoute::Stop)
    } else {
        None
    }
}

/// The diagnostic for a tool call whose name is missing or unknown.
pub open spec fn route_failure(name: Option<Seq<char>>) -> Seq<char> {
    match name {
        None => "tool name is required"@,
        Some(n) => "unknown Coordinator tool `"@ + n + "`"@,
    }
}

/// Routes a tool call by its name: the named tool, or the diagnostic for a missing or unknown
/// name.
pub fn tool_route(name: Option<&str>) -> (route: Result<ToolRoute, String>)
    ensures
        match route {
            Ok(r) => name matches Some(n) && tool_named(n@) == Some(r),
            Err(message) => match name {
                None => message@ == route_failure(None),
                Some(n) => tool_named(n@) is None && message@ == route_failure(Some(n@)),
            },
        },
{
    let name = match name {
        Some(n) => n,
        None => {
            return Err(String::from_str("tool name is required"));
        },
    };
    if str_equals(name, "harness_list") {
        Ok(ToolRoute::HarnessList)
    } else if str_equals(name, "harness_status") {
        Ok(ToolRoute::HarnessStatus)
    } else if str_equals(name, "harness_inbox") {
        Ok(ToolRoute::HarnessInbox)
    } else if str_equals(name, "harness_task_create") {
        Ok(ToolRoute::TaskCreate)
    } else if str_equals(name, "harness_task_graph") {
        Ok(ToolRoute::TaskGraph)
    } else if str_equals(name, "harness_task_graph_watch") {
        Ok(ToolRoute::TaskGraphWatch)
    } else if str_equals(name, "harness_send") {
        Ok(ToolRoute::Send)
    } else if str_equals(name, "harness_request") {
        Ok(ToolRoute::Request)
    } else if str_equals(name, "harness_attachment_create") {
        Ok(ToolRoute::AttachmentCreate)
    } else if str_equals(name, "harness_complete") {
        Ok(ToolRoute::Complete)
    } else if str_equals(name, "harness_task_approve") {
        Ok(ToolRoute::TaskApprove)
    } else if str_equals(name, "harness_task_cancel") {
        Ok(ToolRoute::TaskCancel)
    } else if str_equals(name, "harness_hold_clear") {
        Ok(ToolRoute::HoldClear)
    } else if str_equals(name, "harness_supervisor_events") {
        Ok(ToolRoute::SupervisorEvents)
    } else if str_equals(name, "harness_supervisor_event_ack") {
        Ok(ToolRoute::SupervisorEventAck)
    } else if str_equals(name, "harness_supervisor_event_reconcile") {
        Ok(ToolRoute::SupervisorEventReconcile)
    } else if str_equals(name, "harness_stop") {
        Ok(ToolRoute::Stop)
    } else {
        let mut message = String::from_str("unknown Coordinator tool `");
        message.append(name);
        message.append("`");
        Err(message)
    }
}

/// The diagnostic reported when a tool's arguments do not decode; `None` for tools that take
/// no arguments.
pub open spec fn argument_context_of(route: ToolRoute) -> Option<Seq<char>> {
    match route {
        ToolRoute::HarnessList => None,
        ToolRoute::HarnessStatus => None,
        ToolRoute::HarnessInbox => None,
        ToolRoute::TaskCreate => Some("invalid TaskSubmissionV1"@),
        ToolRoute::TaskGraph => None,
        ToolRoute::TaskGraphWatch => Some("invalid Task graph watch arguments"@),
        ToolRoute::Send => Some("invalid MessageSubmissionV1"@),
        ToolRoute::Request => Some("invalid MessageSubmissionV1"@),
        ToolRoute::AttachmentCreate => Some("invalid Attachment arguments"@),
        ToolRoute::Complete => Some("invalid completion arguments"@),
        ToolRoute::TaskApprove => Some("invalid Approval arguments"@),
        ToolRoute::TaskCancel => Some("invalid cancellation arguments"@),
        ToolRoute::HoldClear => Some("invalid Hold clearance arguments"@),
        ToolRoute::SupervisorEvents => None,
        ToolRoute::SupervisorEventAck => Some("invalid Supervisor Event acknowledgement arguments"@),
        ToolRoute::SupervisorEventReconcile => Some("invalid Supervisor Event reconciliation arguments"@),
        ToolRoute::Stop => Some("invalid Worker stop arguments"@),
    }
}

impl ToolRoute {
    /// The diagnostic reported when this tool's arguments do not decode; `None` for tools
    /// that take no arguments.
    pub fn argument_context(&self) -> (context: Option<&'static str>)
        ensures
            match context {
                Some(c) => argument_context_of(*self) == Some(c@),
                None => argument_context_of(*self) is None,
            },
    {
        match self {
            ToolRoute::HarnessList => None,
            ToolRoute::HarnessStatus => None,
            ToolRoute::HarnessInbox => None,
            ToolRoute::TaskCreate => Some("invalid TaskSubmissionV1"),
            ToolRoute::TaskGraph => None,
            ToolRoute::TaskGraphWatch => Some("invalid Task graph watch arguments"),
            ToolRoute::Send => Some("invalid MessageSubmissionV1"),
            ToolRoute::Request => Some("invalid MessageSubmissionV1"),
            ToolRoute::AttachmentCreate => Some("invalid Attachment arguments"),
            ToolRoute::Complete => Some("invalid completion arguments"),
            ToolRoute::TaskApprove => Some("invalid Approval arguments"),
            ToolRoute::TaskCancel => Some("invalid cancellation arguments"),
            ToolRoute::HoldClear => Some("invalid Hold clearance arguments"),
            ToolRoute::SupervisorEvents => None,
            ToolRoute::SupervisorEventAck => Some("invalid Supervisor Event acknowledgement arguments"),
            ToolRoute::SupervisorEventReconcile => Some("invalid Supervisor Event reconciliation arguments"),
            ToolRoute::Stop => Some("invalid Worker stop arguments"),
        }
    }
}

/// One routed tool call with its decoded arguments.
#[derive(Debug, Clone)]
pub enum ToolCall {
    HarnessList,
    HarnessStatus,
    HarnessInbox,
    TaskCreate { submission: TaskSubmissionV1 },
    Send { submission: MessageSubmissionV1 },
    Request { submission: MessageSubmissionV1 },
    Complete { manifest: ResultManifestV1, native_turn_id: String },
    TaskApprove { task_id: TaskId, result_revision: u32, observation_digest: String },
    TaskCancel { task_id: TaskId },
    HoldClear { task_id: TaskId, observation_digest: String, audit_note: String },
    Stop { worker_id: HarnessId },
    AttachmentCreate { path: String, media_type: Option<String> },
    TaskGraph,
    TaskGraphWatch { root_task_ids: Vec<TaskId> },
    SupervisorEvents,
    SupervisorEventAck { event_ids: Vec<String> },
    SupervisorEventReconcile { event_id: String, resolution: EventResolution, audit_note: String },
}

/// The Coordinator operation a tool call asks for.
pub open spec fn operation_of(call: ToolCall) -> ToolOperation {
    match call {
        ToolCall::HarnessList => ToolOperation::Query(CoordinatorQuery::HarnessStatus),
        ToolCall::HarnessStatus => ToolOperation::Query(CoordinatorQuery::ListTasks),
        ToolCall::HarnessInbox => ToolOperation::Query(CoordinatorQuery::Inbox),
        ToolCall::TaskCreate { submission } => ToolOperation::Execute(
            CoordinatorCommand::CreateTask { submission },
        ),
        ToolCall::Send { submission } => ToolOperation::Execute(
            CoordinatorCommand::SendMessage { submission },
        ),
        ToolCall::Request { submission } => ToolOperation::Execute(
            CoordinatorCommand::SendMessage { submission },
        ),
        ToolCall::Complete { manifest, native_turn_id } => ToolOperation::Execute(
            CoordinatorCommand::CompleteTask { manifest, native_turn_id },
        ),
        ToolCall::TaskApprove { task_id, result_revision, observation_digest } =>
            ToolOperation::Execute(
            CoordinatorCommand::ApproveTask { task_id, result_revision, observation_digest },
        ),
        ToolCall::TaskCancel { task_id } => ToolOperation::Execute(
            CoordinatorCommand::CancelTask { task_id },
        ),
        ToolCall::HoldClear { task_id, observation_digest, audit_note } => ToolOperation::Execute(
            CoordinatorCommand::ClearWorktreeHold { task_id, observation_digest, audit_note },
        ),
        ToolCall::Stop { worker_id } => ToolOperation::Execute(
            CoordinatorCommand::StopWorker { worker_id },
        ),
        ToolCall::AttachmentCreate { path, media_type } => ToolOperation::Execute(
            CoordinatorCommand::CreateAttachment { path, media_type },
        ),
        ToolCall::TaskGraph => ToolOperation::Query(CoordinatorQuery::TaskGraph),
        ToolCall::TaskGraphWatch { root_task_ids } => ToolOperation::Execute(
            CoordinatorCommand::WatchTaskGraph { root_task_ids },
        ),
        ToolCall::SupervisorEvents => ToolOperation::Query(CoordinatorQuery::SupervisorEvents),
        ToolCall::SupervisorEventAck { event_ids } => ToolOperation::Execute(
            CoordinatorCommand::AcknowledgeSupervisorEvents { event_ids },
        ),
        ToolCall::SupervisorEventReconcile { event_id, resolution, audit_note } =>
            ToolOperation::Execute(
            CoordinatorCommand::ReconcileSupervisorEvent { event_id, resolution, audit_note },
        ),
    }
}

/// The Coordinator operation a tool call asks for.
pub fn tool_operation(call: ToolCall) -> (operation: ToolOperation)
    ensures
        operation == operation_of(call),
{
    match call {
        ToolCall::HarnessList => query(CoordinatorQuery::HarnessStatus),
        ToolCall::HarnessStatus => query(CoordinatorQuery::ListTasks),
        ToolCall::HarnessInbox => query(CoordinatorQuery::Inbox),
        ToolCall::TaskCreate { submission } => execute(CoordinatorCommand::CreateTask { submission }),
        ToolCall::Send { submission } => execute(CoordinatorCommand::SendMessage { submission }),
        ToolCall::Request { submission } => execute(CoordinatorCommand::SendMessage { submission }),
        ToolCall::Complete { manifest, native_turn_id } => execute(
            CoordinatorCommand::CompleteTask { manifest, native_turn_id },
        ),
        ToolCall::TaskApprove { task_id, result_revision, observation_digest } => execute(
            CoordinatorCommand::ApproveTask { task_id, result_revision, observation_digest },
        ),
        ToolCall::TaskCancel { task_id } => execute(CoordinatorCommand::CancelTask { task_id }),
        ToolCall::HoldClear { task_id, observation_digest, audit_note } => execute(
            CoordinatorCommand::ClearWorktreeHold { task_id, observation_digest, audit_note },
        ),
        ToolCall::Stop { worker_id } => execute(CoordinatorCommand::StopWorker { worker_id }),
        ToolCall::AttachmentCreate { path, media_type } => execute(
            CoordinatorCommand::CreateAttachment { path, media_type },
        ),
        ToolCall::TaskGraph => query(CoordinatorQuery::TaskGraph),
        ToolCall::TaskGraphWatch { root_task_ids } => execute(
            CoordinatorCommand::WatchTaskGraph { root_task_ids },
        ),
        ToolCall::SupervisorEvents => query(CoordinatorQuery::SupervisorEvents),
        ToolCall::SupervisorEventAck { event_ids } => execute(
            CoordinatorCommand::AcknowledgeSupervisorEvents { event_ids },
        ),
        ToolCall::SupervisorEventReconcile { event_id, resolution, audit_note } => execute(
            CoordinatorCommand::ReconcileSupervisorEvent { event_id, resolution, audit_note },
        ),
    }
}

/// The outcome of a tool call from the broker's response: the result's JSON text, or the
/// diagnostic that the tool reports as an error.
pub open spec fn tool_outcome(response: ResponseView) -> Result<Seq<char>, Seq<char>> {
    match response.error {
        Some((category, message)) => Err(
            "Coordinator "@ + category_label(category) + ": "@ + message,
        ),
        None => match response.result {
            Some(result) => Ok(result),
            None => Err("Coordinator response omitted result"@),
        },
    }
}

/// Turns the broker's response to a tool call into the tool's outcome.
pub fn tool_result(response: BrokerResponse) -> (outcome: Result<String, String>)
    ensures
        match outcome {
            Ok(result) => tool_outcome(response@) == Ok::<Seq<char>, Seq<char>>(result@),
            Err(message) => tool_outcome(response@) == Err::<Seq<char>, Seq<char>>(message@),
        },
{
    match response.error {
        Some(body) => {
            let mut message = String::from_str("Coordinator ");
            message.append(body.category.label());
            message.append(": ");
            message.append(body.message.as_str());
            Err(message)
        },
        None => match response.result {
            Some(result) => Ok(result),
            None => Err(String::from_str("Coordinator response omitted result")),
        },
    }
}

/// The input schema a tool advertises.
#[derive(Debug, Clone, Copy, PartialEq, Eq, Structural)]
pub enum ToolInput {
    /// An object with no properties.
    Empty,
    /// An object whose properties the Coordinator validates.
    Passthrough,
    /// An object with one required string property, `worker_id`.
    WorkerId,
    /// A `TaskSubmissionV1` object.
    TaskSubmission,
    /// An object with a required `manifest` and an optional `native_turn_id`.
    Completion,
    /// An object with a required `path` and an optional `media_type`.
    AttachmentPath,
    /// An object with the required root Task set, `root_task_ids`.
    RootTasks,
    /// An object with the required Supervisor Event IDs, `event_ids`.
    EventIds,
    /// An object naming one Supervisor Event, its resolution, and an audit note.
    EventReconciliation,
}

/// The properties an input schema requires, in order.
pub open spec fn required_fields(input: ToolInput) -> Seq<Seq<char>> {
    match input {
        ToolInput::Empty => Seq::empty(),
        ToolInput::Passthrough => Seq::empty(),
        ToolInput::WorkerId => seq!["worker_id"@],
        ToolInput::TaskSubmission => seq!["schema_version"@, "worker_id"@, "task_role"@, "session_reuse"@, "title"@, "instructions"@, "attachments"@, "repository"@],
        ToolInput::Completion => seq!["manifest"@],
        ToolInput::AttachmentPath => seq!["path"@],
        ToolInput::RootTasks => seq!["root_task_ids"@],
        ToolInput::EventIds => seq!["event_ids"@],
        ToolInput::EventReconciliation => seq!["event_id"@, "resolution"@, "audit_note"@],
    }
}

/// The text views of a list of static names.
pub open spec fn name_views(names: Seq<&'static str>) -> Seq<Seq<char>> {
    names.map_values(|n: &'static str| n@)
}

impl ToolInput {
    /// The properties this input schema requires, in order.
    pub fn required(&self) -> (fields: Vec<&'static str>)
        ensures
            name_views(fields@) == required_fields(*self),
    {
        let mut fields: Vec<&'static str> = Vec::new();
        match self {
            ToolInput::Empty => {
            },
            ToolInput::Passthrough => {
            },
            ToolInput::WorkerId => {
                fields.push("worker_id");
            },
            ToolInput::TaskSubmission => {
                fields.push("schema_version");
                fields.push("worker_id");
                fields.push("task_role");
                fields.push("session_reuse");
                fields.push("title");
                fields.push("instructions");
                fields.push("attachments");
                fields.push("repository");
            },
            ToolInput::Completion => {
                fields.push("manifest");
            },
            ToolInput::AttachmentPath => {
                fields.push("path");
            },
            ToolInput::RootTasks => {
                fields.push("root_task_ids");
            },
            ToolInput::EventIds => {
                fields.push("event_ids");
            },
            ToolInput::EventReconciliation => {
                fields.push("event_id");
                fields.push("resolution");
                fields.push("audit_note");
            },
        }
        assert(name_views(fields@) =~= required_fields(*self));
        fields
    }
}

/// One advertised tool.
#[derive(Debug, Clone, Copy)]
pub struct ToolSpec {
    pub name: &'static str,
    pub description: &'static str,
    pub input: ToolInput,
}

/// The advertised tools, in order: name, description, and input schema.
pub open spec fn tool_catalog() -> Seq<(Seq<char>, Seq<char>, ToolInput)> {
    seq![
        ("harness_list"@, "List durable Harnesses and live status."@, ToolInput::Empty),
        ("harness_status"@, "List durable Tasks and lifecycle states."@, ToolInput::Empty),
        ("harness_inbox"@, "Read unread Messages for this Harness."@, ToolInput::Empty),
        ("harness_task_create"@, "Create a bounded Task for an explicit Worker."@, ToolInput::TaskSubmission),
        ("harness_task_graph"@, "Read every Task's scheduling, dependency, and wait state."@, ToolInput::Empty),
        ("harness_task_graph_watch"@, "Watch an explicit root Task set until every root reaches review or a terminal state."@, ToolInput::RootTasks),
        ("harness_send"@, "Send a routed Reply, Correction, or Notification."@, ToolInput::Passthrough),
        ("harness_request"@, "Send a blocking Worker Question to the Supervisor."@, ToolInput::Passthrough),
        ("harness_attachment_create"@, "Admit a regular file as an immutable Attachment and return its ID."@, ToolInput::AttachmentPath),
        ("harness_complete"@, "Submit one Result candidate for the current native turn."@, ToolInput::Completion),
        ("harness_task_approve"@, "Approve the current Result against repository evidence."@, ToolInput::Passthrough),
        ("harness_task_cancel"@, "Cancel a queued or active Task."@, ToolInput::Passthrough),
        ("harness_hold_clear"@, "Clear a digest-confirmed Worktree Hold without editing files."@, ToolInput::Passthrough),
        ("harness_supervisor_events"@, "List durable Supervisor Events awaiting attention."@, ToolInput::Empty),
        ("harness_supervisor_event_ack"@, "Acknowledge one to thirty-two Supervisor Events as processed."@, ToolInput::EventIds),
        ("harness_supervisor_event_reconcile"@, "Settle an unknown Supervisor Event by retry, processed, or cancel, with an audit note."@, ToolInput::EventReconciliation),
        ("harness_stop"@, "Stop one explicit Worker Host after settling active cancellation."@, ToolInput::WorkerId),
    ]
}

/// The view of an advertised tool.
pub open spec fn tool_view(tool: ToolSpec) -> (Seq<char>, Seq<char>, ToolInput) {
    (tool.name@, tool.description@, tool.input)
}

fn tool(name: &'static str, description: &'static str, input: ToolInput) -> (spec: ToolSpec)
    ensures
        spec.name@ == name@,
        spec.description@ == description@,
        spec.input == input,
{
    ToolSpec { name, description, input }
}

/// The advertised tools, in order.
pub fn tools() -> (catalog: Vec<ToolSpec>)
    ensures
        catalog@.map_values(|t: ToolSpec| tool_view(t)) == tool_catalog(),
{
    let mut catalog: Vec<ToolSpec> = Vec::new();
    catalog.push(tool("harness_list", "List durable Harnesses and live status.", ToolInput::Empty));
    catalog.push(tool("harness_status", "List durable Tasks and lifecycle states.", ToolInput::Empty));
    catalog.push(tool("harness_inbox", "Read unread Messages for this Harness.", ToolInput::Empty));
    catalog.push(tool("harness_task_create", "Create a bounded Task for an explicit Worker.", ToolInput::TaskSubmission));
    catalog.push(tool("harness_task_graph", "Read every Task's scheduling, dependency, and wait state.", ToolInput::Empty));
    catalog.push(tool("harness_task_graph_watch", "Watch an explicit root Task set until every root reaches review or a terminal state.", ToolInput::RootTasks));
    catalog.push(tool("harness_send", "Send a routed Reply, Correction, or Notification.", ToolInput::Passthrough));
    catalog.push(tool("harness_request", "Send a blocking Worker Question to the Supervisor.", ToolInput::Passthrough));
    catalog.push(tool("harness_attachment_create", "Admit a regular file as an immutable Attachment and return its ID.", ToolInput::AttachmentPath));
    catalog.push(tool("harness_complete", "Submit one Result candidate for the current native turn.", ToolInput::Completion));
    catalog.push(tool("harness_task_approve", "Approve the current Result against repository evidence.", ToolInput::Passthrough));
    catalog.push(tool("harness_task_cancel", "Cancel a queued or active Task.", ToolInput::Passthrough));
    catalog.push(tool("harness_hold_clear", "Clear a digest-confirmed Worktree Hold without editing files.", ToolInput::Passthrough));
    catalog.push(tool("harness_supervisor_events", "List durable Supervisor Events awaiting attention.", ToolInput::Empty));
    catalog.push(tool("harness_supervisor_event_ack", "Acknowledge one to thirty-two Supervisor Events as processed.", ToolInput::EventIds));
    catalog.push(tool("harness_supervisor_event_reconcile", "Settle an unknown Supervisor Event by retry, processed, or cancel, with an audit note.", ToolInput::EventReconciliation));
    catalog.push(tool("harness_stop", "Stop one explicit Worker Host after settling active cancellation.", ToolInput::WorkerId));
    assert(catalog@.map_values(|t: ToolSpec| tool_view(t)) =~= tool_catalog());
    catalog
}

/// Every advertised tool routes to itself: the catalog and the router agree on each name.
pub proof fn catalog_names_route(i: int)
    requires
        0 <= i < tool_catalog().len(),
    ensures
        tool_named(tool_catalog()[i].0) is Some,
{
    reveal_strlit("harness_list");
    reveal_strlit("harness_status");
    reveal_strlit("harness_inbox");
    reveal_strlit("harness_task_create");
    reveal_strlit("harness_task_graph");
    reveal_strlit("harness_task_graph_watch");
    reveal_strlit("harness_send");
    reveal_strlit("harness_request");
    reveal_strlit("harness_attachment_create");
    reveal_strlit("harness_complete");
    reveal_strlit("harness_task_approve");
    reveal_strlit("harness_task_cancel");
    reveal_strlit("harness_hold_clear");
    reveal_strlit("harness_supervisor_events");
    reveal_strlit("harness_supervisor_event_ack");
    reveal_strlit("harness_supervisor_event_reconcile");
    reveal_strlit("harness_stop");
}


/// Each tool call asks the Coordinator for the command or query of its own purpose, with its
/// arguments unchanged: listing Harnesses reads live Harness status, the status tool reads
/// Tasks, the inbox tool reads the inbox; creating, messaging, completing, approving,
/// cancelling, clearing a Hold, stopping, admitting an Attachment, watching the graph, and
/// acknowledging or reconciling Supervisor Events each execute that very command; a question
/// to the Supervisor is sent like any other message.
pub proof fn tool_calls_keep_their_purpose_and_arguments(
    submission: TaskSubmissionV1,
    message: MessageSubmissionV1,
    manifest: ResultManifestV1,
    native_turn_id: String,
    task_id: TaskId,
    result_revision: u32,
    observation_digest: String,
    audit_note: String,
    worker_id: HarnessId,
    path: String,
    media_type: Option<String>,
    root_task_ids: Vec<TaskId>,
    event_ids: Vec<String>,
    event_id: String,
    resolution: EventResolution,
)
    ensures
        operation_of(ToolCall::HarnessList) == ToolOperation::Query(CoordinatorQuery::HarnessStatus),
        operation_of(ToolCall::HarnessStatus) == ToolOperation::Query(CoordinatorQuery::ListTasks),
        operation_of(ToolCall::HarnessInbox) == ToolOperation::Query(CoordinatorQuery::Inbox),
        operation_of(ToolCall::TaskGraph) == ToolOperation::Query(CoordinatorQuery::TaskGraph),
        operation_of(ToolCall::SupervisorEvents) == ToolOperation::Query(
            CoordinatorQuery::SupervisorEvents,
        ),
        operation_of(ToolCall::TaskCreate { submission }) == ToolOperation::Execute(
            CoordinatorCommand::CreateTask { submission },
        ),
        operation_of(ToolCall::Send { submission: message }) == ToolOperation::Execute(
            CoordinatorCommand::SendMessage { submission: message },
        ),
        operation_of(ToolCall::Request { submission: message }) == ToolOperation::Execute(
            CoordinatorCommand::SendMessage { submission: message },
        ),
        operation_of(ToolCall::Complete { manifest, native_turn_id }) == ToolOperation::Execute(
            CoordinatorCommand::CompleteTask { manifest, native_turn_id },
        ),
        operation_of(ToolCall::TaskApprove { task_id, result_revision, observation_digest })
            == ToolOperation::Execute(
            CoordinatorCommand::ApproveTask { task_id, result_revision, observation_digest },
        ),
        operation_of(ToolCall::TaskCancel { task_id }) == ToolOperation::Execute(
            CoordinatorCommand::CancelTask { task_id },
        ),
        operation_of(ToolCall::HoldClear { task_id, observation_digest, audit_note })
            == ToolOperation::Execute(
            CoordinatorCommand::ClearWorktreeHold { task_id, observation_digest, audit_note },
        ),
        operation_of(ToolCall::Stop { worker_id }) == ToolOperation::Execute(
            CoordinatorCommand::StopWorker { worker_id },
        ),
        operation_of(ToolCall::AttachmentCreate { path, media_type }) == ToolOperation::Execute(
            CoordinatorCommand::CreateAttachment { path, media_type },
        ),
        operation_of(ToolCall::TaskGraphWatch { root_task_ids }) == ToolOperation::Execute(
            CoordinatorCommand::WatchTaskGraph { root_task_ids },
        ),
        operation_of(ToolCall::SupervisorEventAck { event_ids }) == ToolOperation::Execute(
            CoordinatorCommand::AcknowledgeSupervisorEvents { event_ids },
        ),
        operation_of(ToolCall::SupervisorEventReconcile { event_id, resolution, audit_note })
            == ToolOperation::Execute(
            CoordinatorCommand::ReconcileSupervisorEvent { event_id, resolution, audit_note },
        ),
{
}


/// Each tool name routes to the tool of that name, and the catalog advertises exactly these
/// names, each with the input its tool decodes.
pub proof fn tool_names_route_to_their_own_tool()
    ensures
        tool_named("harness_list"@) == Some(ToolRoute::HarnessList),
        tool_named("harness_status"@) == Some(ToolRoute::HarnessStatus),
        tool_named("harness_inbox"@) == Some(ToolRoute::HarnessInbox),
        tool_named("harness_task_create"@) == Some(ToolRoute::TaskCreate),
        tool_named("harness_task_graph"@) == Some(ToolRoute::TaskGraph),
        tool_named("harness_task_graph_watch"@) == Some(ToolRoute::TaskGraphWatch),
        tool_named("harness_send"@) == Some(ToolRoute::Send),
        tool_named("harness_request"@) == Some(ToolRoute::Request),
        tool_named("harness_attachment_create"@) == Some(ToolRoute::AttachmentCreate),
        tool_named("harness_complete"@) == Some(ToolRoute::Complete),
        tool_named("harness_task_approve"@) == Some(ToolRoute::TaskApprove),
        tool_named("harness_task_cancel"@) == Some(ToolRoute::TaskCancel),
        tool_named("harness_hold_clear"@) == Some(ToolRoute::HoldClear),
        tool_named("harness_supervisor_events"@) == Some(ToolRoute::SupervisorEvents),
        tool_named("harness_supervisor_event_ack"@) == Some(ToolRoute::SupervisorEventAck),
        tool_named("harness_supervisor_event_reconcile"@) == Some(ToolRoute::SupervisorEventReconcile),
        tool_named("harness_stop"@) == Some(ToolRoute::Stop),
        tool_catalog().len() == 17,
        forall|i: int| 0 <= i < tool_catalog().len() ==> #[trigger] tool_named(tool_catalog()[i].0) is Some,
{
    reveal_strlit("harness_list");
    reveal_strlit("harness_status");
    reveal_strlit("harness_inbox");
    reveal_strlit("harness_task_create");
    reveal_strlit("harness_task_graph");
    reveal_strlit("harness_task_graph_watch");
    reveal_strlit("harness_send");
    reveal_strlit("harness_request");
    reveal_strlit("harness_attachment_create");
    reveal_strlit("harness_complete");
    reveal_strlit("harness_task_approve");
    reveal_strlit("harness_task_cancel");
    reveal_strlit("harness_hold_clear");
    reveal_strlit("harness_supervisor_events");
    reveal_strlit("harness_supervisor_event_ack");
    reveal_strlit("harness_supervisor_event_reconcile");
    reveal_strlit("harness_stop");
    assert("harness_list"@.len() == 12);
    assert("harness_status"@.len() == 14);
    assert("harness_inbox"@.len() == 13);
    assert("harness_task_create"@.len() == 19);
    assert("harness_task_graph"@.len() == 18);
    assert("harness_task_graph_watch"@.len() == 24);
    assert("harness_send"@.len() == 12);
    assert("harness_request"@.len() == 15);
    assert("harness_attachment_create"@.len() == 25);
    assert("harness_complete"@.len() == 16);
    assert("harness_task_approve"@.len() == 20);
    assert("harness_task_cancel"@.len() == 19);
    assert("harness_hold_clear"@.len() == 18);
    assert("harness_supervisor_events"@.len() == 25);
    assert("harness_supervisor_event_ack"@.len() == 28);
    assert("harness_supervisor_event_reconcile"@.len() == 34);
    assert("harness_stop"@.len() == 12);
    assert("harness_send"@[8] != "harness_list"@[8]);
    assert("harness_task_cancel"@[14] != "harness_task_create"@[14]);
    assert("harness_hold_clear"@[8] != "harness_task_graph"@[8]);
    assert("harness_supervisor_events"@[8] != "harness_attachment_create"@[8]);
    assert("harness_stop"@[8] != "harness_list"@[8]);
    assert("harness_stop"@[9] != "harness_send"@[9]);
}

} // verus!
