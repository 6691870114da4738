use herdr_harness_coordinator::{
    broker::{
        BROKER_SCHEMA_V1, BROKER_SCHEMA_V2, BrokerError, BrokerOperation, BrokerRequest,
        BrokerResponse, MAX_BROKER_FRAME_BYTES, MAX_DIAGNOSTIC_CHARS, admit_request, bound_diagnostic, bounded_response, check_frame,
        frame_fits, outcome_response, oversized_frame_response, undecodable_frame_response,
    },
    contract::HarnessSessionId,
    coordinator::{ActorContext, CoordinatorCommand, CoordinatorQuery, ErrorCategory},
};

fn request(version: u32) -> BrokerRequest {
    query_request(version, CoordinatorQuery::ListHarnesses)
}

fn query_request(version: u32, query: CoordinatorQuery) -> BrokerRequest {
    BrokerRequest {
        schema_version: version,
        request_id: "query-1".to_owned(),
        operation: BrokerOperation::Query {
            actor: ActorContext::Bootstrap,
            query,
        },
    }
}

#[test]
fn broker_rejects_an_unversioned_request_with_its_correlation() {
    let response = match admit_request(request(99)) {
        Ok(_) => panic!("version 99 must be refused"),
        Err(response) => response,
    };
    assert_eq!(response.schema_version, 1);
    assert_eq!(response.request_id.as_deref(), Some("query-1"));
    assert!(response.result.is_none());
    let error = response.error.expect("version error");
    assert_eq!(error.category, ErrorCategory::UnsupportedVersion);
    assert_eq!(error.message, "broker schema_version must be 1 or 2");
}

#[test]
fn broker_rejects_an_unversioned_request_without_closing_the_daemon() {
    let response = match admit_request(request(3)) {
        Ok(_) => panic!("version 3 must be refused"),
        Err(response) => response,
    };
    assert_eq!(
        response.error.expect("version error").category,
        ErrorCategory::UnsupportedVersion
    );
}

#[test]
fn dashboard_and_pane_location_need_the_second_envelope_version() {
    let refused = match admit_request(query_request(BROKER_SCHEMA_V1, CoordinatorQuery::Dashboard)) {
        Ok(_) => panic!("a v1 Dashboard query must be refused"),
        Err(response) => response,
    };
    let error = refused.error.expect("version error");
    assert_eq!(error.category, ErrorCategory::UnsupportedVersion);
    assert_eq!(
        error.message,
        "Dashboard and RecordPaneLocation require broker schema_version 2"
    );
    let (version, request_id, _) =
        admit_request(query_request(BROKER_SCHEMA_V2, CoordinatorQuery::Dashboard))
            .expect("a v2 Dashboard query is admitted");
    assert_eq!(version, BROKER_SCHEMA_V2);
    assert_eq!(request_id, "query-1");
    let (version, _, _) = admit_request(query_request(BROKER_SCHEMA_V2, CoordinatorQuery::Inbox))
        .expect("v2 keeps the original operations");
    assert_eq!(version, BROKER_SCHEMA_V2);
    let pane = BrokerRequest {
        schema_version: BROKER_SCHEMA_V1,
        request_id: "pane-location-v1".to_owned(),
        operation: BrokerOperation::Execute {
            actor: ActorContext::Bootstrap,
            command: CoordinatorCommand::RecordPaneLocation {
                session_id: HarnessSessionId(1),
                terminal_id: "supervisor-terminal".to_owned(),
                pane_id: "1-1".to_owned(),
            },
        },
    };
    assert!(admit_request(pane).is_err());
    let answered = outcome_response(BROKER_SCHEMA_V2, "dashboard-v2".to_owned(), Ok("{}".to_owned()));
    assert_eq!(answered.schema_version, BROKER_SCHEMA_V2);
}

#[test]
fn broker_admits_a_current_request_unchanged() {
    let (version, request_id, operation) = admit_request(request(1)).expect("version 1 is admitted");
    assert_eq!(version, 1);
    assert_eq!(request_id, "query-1");
    assert!(matches!(
        operation,
        BrokerOperation::Query {
            query: CoordinatorQuery::ListHarnesses,
            ..
        }
    ));
}

#[test]
fn oversized_frames_are_answered_without_correlation() {
    assert!(frame_fits(MAX_BROKER_FRAME_BYTES));
    assert!(!frame_fits(MAX_BROKER_FRAME_BYTES + 1));
    let response = oversized_frame_response();
    assert!(response.request_id.is_none());
    let error = response.error.expect("framing error");
    assert_eq!(error.category, ErrorCategory::InvalidInput);
    assert_eq!(error.message, "broker frame exceeds 1 MiB");
}

#[test]
fn undecodable_frames_report_the_decoder_diagnostic() {
    let response = undecodable_frame_response("expected value at line 1 column 1");
    assert!(response.request_id.is_none());
    let error = response.error.expect("decode error");
    assert_eq!(error.category, ErrorCategory::InvalidInput);
    assert_eq!(error.message, "expected value at line 1 column 1");
}

#[test]
fn diagnostics_are_cut_to_the_character_limit() {
    let long = "é".repeat(MAX_DIAGNOSTIC_CHARS + 10);
    let bounded = bound_diagnostic(&long);
    assert_eq!(bounded.chars().count(), MAX_DIAGNOSTIC_CHARS);
    assert!(long.starts_with(&bounded));
    assert_eq!(bound_diagnostic("short"), "short");
    let response = BrokerResponse::error(Some("r".to_owned()), ErrorCategory::Conflict, &long);
    assert_eq!(
        response.error.expect("error").message.chars().count(),
        MAX_DIAGNOSTIC_CHARS
    );
}

#[test]
fn outcomes_become_results_or_stable_errors() {
    let ok = outcome_response(1, "r-1".to_owned(), Ok("{\"tasks\":[]}".to_owned()));
    assert_eq!(ok.request_id.as_deref(), Some("r-1"));
    assert_eq!(ok.result.as_deref(), Some("{\"tasks\":[]}"));
    assert!(ok.error.is_none());
    let failed = outcome_response(
        1,
        "r-2".to_owned(),
        Err((ErrorCategory::Forbidden, "Bootstrap may only register".to_owned())),
    );
    assert!(failed.result.is_none());
    let error = failed.error.expect("error");
    assert_eq!(error.category, ErrorCategory::Forbidden);
    assert_eq!(error.message, "Bootstrap may only register");
}

#[test]
fn oversized_responses_become_storage_failures_that_keep_correlation() {
    let ok = outcome_response(2, "r-3".to_owned(), Ok("{}".to_owned()));
    let kept = bounded_response(ok.clone(), MAX_BROKER_FRAME_BYTES - 1);
    assert_eq!(kept.result.as_deref(), Some("{}"));
    let replaced = bounded_response(ok, MAX_BROKER_FRAME_BYTES);
    assert_eq!(replaced.request_id.as_deref(), Some("r-3"));
    assert_eq!(replaced.schema_version, 2);
    assert!(replaced.result.is_none());
    let error = replaced.error.expect("storage failure");
    assert_eq!(error.category, ErrorCategory::StorageFailure);
    assert_eq!(error.message, "broker response exceeds 1 MiB");
}

#[test]
fn client_frames_over_the_limit_are_refused() {
    assert!(check_frame(10).is_ok());
    assert_eq!(
        check_frame(MAX_BROKER_FRAME_BYTES + 1),
        Err(BrokerError::ResponseTooLarge)
    );
    assert_eq!(
        BrokerError::ResponseTooLarge.to_text(),
        "broker response exceeds the 1048576-byte limit"
    );
}

#[test]
fn socket_failures_name_the_path() {
    let error = BrokerError::io("/tmp/broker.sock", "connection refused");
    assert_eq!(
        error.to_text(),
        "broker socket `/tmp/broker.sock` failed: connection refused"
    );
    assert!(!error.is_retry_safe_connect());
}

#[test]
fn only_connect_failures_are_safe_to_retry() {
    let first = BrokerError::connect("/tmp/delayed.sock", "No such file or directory");
    assert!(first.is_retry_safe_connect());
    assert_eq!(
        first.to_text(),
        "broker socket `/tmp/delayed.sock` failed: No such file or directory"
    );
    assert!(!BrokerError::ResponseTooLarge.is_retry_safe_connect());
    assert!(!BrokerError::io("/tmp/delayed.sock", "broken pipe").is_retry_safe_connect());
}

#[test]
fn error_categories_have_stable_wire_names() {
    assert_eq!(ErrorCategory::InvalidInput.as_str(), "invalid_input");
    assert_eq!(ErrorCategory::UnsupportedVersion.as_str(), "unsupported_version");
    assert_eq!(ErrorCategory::HerdrFailure.as_str(), "herdr_failure");
    assert_eq!(ErrorCategory::TargetOffline.label(), "TargetOffline");
}
