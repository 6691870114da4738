use herdr_harness_coordinator::{
    broker::{BrokerOperation, BrokerResponse},
    contract::{HarnessId, TaskId},
    coordinator::{
        ActorContext, CoordinatorCommand, CoordinatorQuery, ErrorCategory, EventResolution,
        SessionCapability,
    },
    mcp::{
        MCP_PROTOCOL_VERSION, McpDispatch, McpServer, ToolCall, ToolInput, ToolOperation,
        ToolRoute, dispatch, execute, from_bearer, query, tool_operation, tool_result, tool_route,
        tools,
    },
};

fn server() -> McpServer {
    McpServer::new(
        "/tmp/not-connected.sock".to_owned(),
        SessionCapability::from_bearer("0".repeat(64)).expect("valid bearer shape"),
    )
}

#[test]
fn mcp_initialization_and_tool_discovery_match_the_pinned_revision() {
    let _server = server();
    assert_eq!(MCP_PROTOCOL_VERSION, "2025-06-18");
    assert_eq!(dispatch(true, Some("initialize")), McpDispatch::Initialize);
    assert_eq!(dispatch(true, Some("tools/list")), McpDispatch::ListTools);
    let catalog = tools();
    let names: Vec<&str> = catalog.iter().map(|tool| tool.name).collect();
    assert!(names.contains(&"harness_complete"));
    assert!(names.contains(&"harness_attachment_create"));
    assert!(names.contains(&"harness_task_approve"));
    assert!(names.contains(&"harness_task_graph"));
    assert!(names.contains(&"harness_hold_clear"));
    assert!(names.contains(&"harness_supervisor_events"));
    assert!(names.contains(&"harness_supervisor_event_ack"));
    assert!(names.contains(&"harness_supervisor_event_reconcile"));
    assert!(names.contains(&"harness_task_graph_watch"));
    let task_create = catalog
        .iter()
        .find(|tool| tool.name == "harness_task_create")
        .expect("Task creation tool");
    let required = task_create.input.required();
    assert!(required.iter().any(|field| *field == "attachments"));
    assert!(required.iter().any(|field| *field == "repository"));
    let complete = catalog
        .iter()
        .find(|tool| tool.name == "harness_complete")
        .expect("completion tool");
    assert_eq!(complete.input.required()[0], "manifest");
    let stop = catalog
        .iter()
        .find(|tool| tool.name == "harness_stop")
        .expect("stop tool");
    assert_eq!(stop.input, ToolInput::WorkerId);
    assert_eq!(stop.input.required(), vec!["worker_id"]);
    assert!(ToolInput::Empty.required().is_empty());
}

#[test]
fn mcp_notifications_do_not_emit_json_rpc_responses() {
    let _server = server();
    assert_eq!(
        dispatch(false, Some("notifications/initialized")),
        McpDispatch::Notification
    );
}

#[test]
fn unknown_methods_are_refused_and_ping_is_answered() {
    assert_eq!(dispatch(true, Some("ping")), McpDispatch::Ping);
    assert_eq!(dispatch(true, Some("tools/call")), McpDispatch::CallTool);
    assert_eq!(dispatch(true, Some("resources/list")), McpDispatch::MethodNotFound);
    assert_eq!(dispatch(true, None), McpDispatch::MethodNotFound);
}

#[test]
fn the_catalog_lists_every_routed_tool_once() {
    let catalog = tools();
    assert_eq!(catalog.len(), 17);
    for tool in &catalog {
        assert!(tool_route(Some(tool.name)).is_ok(), "{} must route", tool.name);
    }
    assert_eq!(catalog[0].name, "harness_list");
    assert_eq!(catalog[0].description, "List durable Harnesses and live status.");
}

#[test]
fn tool_names_route_to_their_coordinator_operations() {
    assert_eq!(tool_route(Some("harness_list")), Ok(ToolRoute::HarnessList));
    assert_eq!(tool_route(Some("harness_request")), Ok(ToolRoute::Request));
    assert_eq!(
        tool_route(None),
        Err("tool name is required".to_owned())
    );
    assert_eq!(
        tool_route(Some("harness_delete_everything")),
        Err("unknown Coordinator tool `harness_delete_everything`".to_owned())
    );
    assert!(matches!(
        tool_operation(ToolCall::HarnessList),
        ToolOperation::Query(CoordinatorQuery::HarnessStatus)
    ));
    assert!(matches!(
        tool_operation(ToolCall::HarnessStatus),
        ToolOperation::Query(CoordinatorQuery::ListTasks)
    ));
    let worker: HarnessId = "worker-1".parse().expect("valid ID");
    assert!(matches!(
        tool_operation(ToolCall::Stop { worker_id: worker }),
        ToolOperation::Execute(CoordinatorCommand::StopWorker { .. })
    ));
    let task = TaskId::new();
    match tool_operation(ToolCall::TaskCancel { task_id: task }) {
        ToolOperation::Execute(CoordinatorCommand::CancelTask { task_id }) => assert_eq!(task_id, task),
        other => panic!("unexpected {other:?}"),
    }
}

#[test]
fn attachment_graph_and_event_tools_route_to_their_operations() {
    assert_eq!(
        tool_route(Some("harness_attachment_create")),
        Ok(ToolRoute::AttachmentCreate)
    );
    assert_eq!(tool_route(Some("harness_task_graph")), Ok(ToolRoute::TaskGraph));
    assert_eq!(
        tool_route(Some("harness_supervisor_event_reconcile")),
        Ok(ToolRoute::SupervisorEventReconcile)
    );
    assert!(matches!(
        tool_operation(ToolCall::TaskGraph),
        ToolOperation::Query(CoordinatorQuery::TaskGraph)
    ));
    assert!(matches!(
        tool_operation(ToolCall::SupervisorEvents),
        ToolOperation::Query(CoordinatorQuery::SupervisorEvents)
    ));
    match tool_operation(ToolCall::AttachmentCreate {
        path: "/tmp/verification.log".to_owned(),
        media_type: Some("text/plain".to_owned()),
    }) {
        ToolOperation::Execute(CoordinatorCommand::CreateAttachment { path, media_type }) => {
            assert_eq!(path, "/tmp/verification.log");
            assert_eq!(media_type.as_deref(), Some("text/plain"));
        }
        other => panic!("unexpected {other:?}"),
    }
    let root = TaskId::new();
    match tool_operation(ToolCall::TaskGraphWatch { root_task_ids: vec![root] }) {
        ToolOperation::Execute(CoordinatorCommand::WatchTaskGraph { root_task_ids }) => {
            assert_eq!(root_task_ids, vec![root]);
        }
        other => panic!("unexpected {other:?}"),
    }
    match tool_operation(ToolCall::SupervisorEventReconcile {
        event_id: "event-1".to_owned(),
        resolution: EventResolution::Cancel,
        audit_note: "superseded".to_owned(),
    }) {
        ToolOperation::Execute(CoordinatorCommand::ReconcileSupervisorEvent {
            event_id,
            resolution,
            audit_note,
        }) => {
            assert_eq!(event_id, "event-1");
            assert_eq!(resolution, EventResolution::Cancel);
            assert_eq!(audit_note, "superseded");
        }
        other => panic!("unexpected {other:?}"),
    }
    assert_eq!(ToolRoute::TaskGraph.argument_context(), None);
    assert_eq!(
        ToolRoute::SupervisorEventAck.argument_context(),
        Some("invalid Supervisor Event acknowledgement arguments")
    );
}

#[test]
fn argument_diagnostics_name_the_expected_shape() {
    assert_eq!(ToolRoute::HarnessList.argument_context(), None);
    assert_eq!(
        ToolRoute::TaskCreate.argument_context(),
        Some("invalid TaskSubmissionV1")
    );
    assert_eq!(
        ToolRoute::Stop.argument_context(),
        Some("invalid Worker stop arguments")
    );
}

#[test]
fn requests_carry_the_bridge_session() {
    let server = server();
    let request = server.request_with_id(query(CoordinatorQuery::Inbox), "corr-1".to_owned());
    assert_eq!(request.schema_version, 1);
    let dashboard = server.request_with_id(query(CoordinatorQuery::Dashboard), "corr-2".to_owned());
    assert_eq!(dashboard.schema_version, 2);
    assert_eq!(request.request_id, "corr-1");
    match request.operation {
        BrokerOperation::Query {
            actor: ActorContext::Session { capability },
            query,
        } => {
            assert_eq!(capability.as_str(), "0".repeat(64));
            assert_eq!(query, CoordinatorQuery::Inbox);
        }
        other => panic!("unexpected {other:?}"),
    }
    let fresh = server.broker_request(execute(CoordinatorCommand::CancelTask { task_id: TaskId::new() }));
    assert_eq!(fresh.request_id.len(), 36);
    assert!(uuid::Uuid::parse_str(&fresh.request_id).is_ok());
    assert_eq!(&fresh.request_id[14..15], "7");
    assert!(matches!(&fresh.request_id[19..20], "8" | "9" | "a" | "b"));
}

#[test]
fn bearers_outside_the_capability_shape_are_refused() {
    assert!(from_bearer("/tmp/s.sock", "0".repeat(64)).is_ok());
    assert!(from_bearer("/tmp/s.sock", "0".repeat(63)).is_err());
    let error = SessionCapability::from_bearer("Z".repeat(64)).expect_err("upper case is refused");
    assert_eq!(
        error.to_text(),
        "invalid `bearer`: must be 64 lowercase hexadecimal characters"
    );
    let server = from_bearer("/tmp/s.sock", "ab".repeat(32)).expect("valid");
    assert_eq!(server.socket(), "/tmp/s.sock");
}

#[test]
fn tool_results_report_coordinator_errors_and_missing_results() {
    let ok = BrokerResponse::success(1, Some("r".to_owned()), "{\"ok\":true}".to_owned());
    assert_eq!(tool_result(ok), Ok("{\"ok\":true}".to_owned()));
    let failed = BrokerResponse::error(Some("r".to_owned()), ErrorCategory::NotFound, "no such Task");
    assert_eq!(
        tool_result(failed),
        Err("Coordinator NotFound: no such Task".to_owned())
    );
    let empty = BrokerResponse {
        schema_version: 1,
        request_id: None,
        result: None,
        error: None,
    };
    assert_eq!(
        tool_result(empty),
        Err("Coordinator response omitted result".to_owned())
    );
}

#[test]
fn bridge_requests_are_admitted_by_the_broker() {
    let server = server();
    for operation in [
        query(CoordinatorQuery::Dashboard),
        query(CoordinatorQuery::Inbox),
        execute(CoordinatorCommand::CancelTask { task_id: TaskId::new() }),
    ] {
        let request = server.request_with_id(operation, "corr".to_owned());
        let version = request.schema_version;
        let (admitted, request_id, _) =
            herdr_harness_coordinator::broker::admit_request(request).expect("admitted");
        assert_eq!(admitted, version);
        assert_eq!(request_id, "corr");
    }
}
