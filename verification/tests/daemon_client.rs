use remote_exec_broker::daemon_client::connection::{
    exec_rpc_timeout_ms, recovery_message, rpc_attempt_step, DaemonConnectionState, RecoveryDecision,
    RpcAttemptAction, RpcRetryPolicy, RpcSendOutcome, TimeoutRecoveryOutcome, TransportErrorKind,
};
use remote_exec_broker::daemon_client::error::{
    decode_rpc_error_body, normalize_tool_error, status_for_terminal_error, DaemonClientError,
    RpcErrorCode, RpcToolErrorMode, ToolCallError,
};

#[test]
fn rpc_error_code_classifies_known_wire_values() {
    let body = format!(
        "{{\"code\":\"{}\",\"message\":\"unsupported\"}}",
        RpcErrorCode::UnknownEndpoint.wire_value()
    );
    let err = decode_rpc_error_body(404, "404 Not Found".to_string(), body);

    assert_eq!(err.rpc_code().as_deref(), Some("unknown_endpoint"));
    assert_eq!(err.rpc_error_code(), Some(RpcErrorCode::UnknownEndpoint));
    assert!(err.is_rpc_error_code(RpcErrorCode::UnknownEndpoint));
    assert!(!err.is_rpc_error_code(RpcErrorCode::NotFound));
}

#[test]
fn rpc_error_code_leaves_unknown_wire_values_unclassified() {
    let body = "{\"code\":\"future_error_code\",\"message\":\"newer daemon\"}".to_string();
    let err = decode_rpc_error_body(400, "400 Bad Request".to_string(), body);

    assert_eq!(err.rpc_code().as_deref(), Some("future_error_code"));
    assert_eq!(err.rpc_error_code(), None);
}

#[test]
fn non_json_error_body_becomes_the_message() {
    let err = decode_rpc_error_body(502, "502 Bad Gateway".to_string(), "upstream down".to_string());
    assert_eq!(err.rpc_code(), None);
    assert_eq!(err.to_string(), "daemon returned 502 Bad Gateway: upstream down");
}

#[test]
fn client_errors_render_by_kind() {
    let transport = DaemonClientError::Transport("connection refused".to_string());
    assert!(transport.is_transport());
    assert_eq!(transport.to_string(), "daemon transport error: connection refused");
    let decode = DaemonClientError::Decode("bad json".to_string());
    assert_eq!(decode.to_string(), "daemon decode error: bad json");
    let malformed = DaemonClientError::Decode("daemon returned malformed exec response: x".to_string());
    assert_eq!(malformed.to_string(), "daemon returned malformed exec response: x");
    let rpc = decode_rpc_error_body(
        404,
        "404 Not Found".to_string(),
        "{\"code\":\"not_found\",\"message\":\"no such session\"}".to_string(),
    );
    assert_eq!(rpc.to_string(), "not_found: no such session (404 Not Found)");
}

#[test]
fn tool_errors_follow_the_rpc_mode() {
    let make = || {
        decode_rpc_error_body(
            400,
            "400 Bad Request".to_string(),
            "{\"code\":\"internal_error\",\"message\":\"boom\"}".to_string(),
        )
    };
    assert_eq!(make().into_tool_error(RpcToolErrorMode::MessageOnly), "boom");
    assert_eq!(make().into_tool_error(RpcToolErrorMode::Full), "internal_error: boom (400 Bad Request)");
    assert_eq!(
        normalize_tool_error(ToolCallError::Other("plain".to_string()), RpcToolErrorMode::MessageOnly),
        "plain"
    );
    assert_eq!(
        normalize_tool_error(ToolCallError::Daemon(make()), RpcToolErrorMode::MessageOnly),
        "boom"
    );
}

#[test]
fn terminal_errors_map_to_http_status() {
    assert_eq!(status_for_terminal_error(None), 500);
    assert_eq!(status_for_terminal_error(Some(RpcErrorCode::Internal)), 500);
    assert_eq!(status_for_terminal_error(Some(RpcErrorCode::TransferFailed)), 500);
    assert_eq!(status_for_terminal_error(Some(RpcErrorCode::NotFound)), 400);
}

#[test]
fn second_consecutive_timeout_resets_connection() {
    let mut state = DaemonConnectionState::new(());
    let first = state.begin_timeout_recovery(Some(0));
    assert_eq!(first, RecoveryDecision::Deferred { consecutive_timeouts: 1 });
    let second = state.begin_timeout_recovery(Some(0));
    assert_eq!(second, RecoveryDecision::ResetNeeded { generation: 0 });
}

#[test]
fn success_clears_the_timeout_streak() {
    let mut state = DaemonConnectionState::new(());
    assert_eq!(
        state.begin_timeout_recovery(Some(0)),
        RecoveryDecision::Deferred { consecutive_timeouts: 1 }
    );
    state.record_success(0);
    assert_eq!(state.consecutive_timeouts, 0);
    assert_eq!(
        state.begin_timeout_recovery(Some(0)),
        RecoveryDecision::Deferred { consecutive_timeouts: 1 }
    );
}

#[test]
fn recovery_messages_say_the_request_was_not_replayed() {
    let retained = recovery_message(Ok(TimeoutRecoveryOutcome::Deferred { consecutive_timeouts: 1 }));
    assert!(retained.contains("connection was retained"));
    assert_eq!(
        recovery_message(Ok(TimeoutRecoveryOutcome::Reset)),
        "connection was reset; request was not replayed"
    );
    assert_eq!(
        recovery_message(Err("boom".to_string())),
        "connection reset failed: boom; request was not replayed"
    );
}

#[test]
fn exec_timeout_accounts_for_requested_yield_time() {
    assert_eq!(exec_rpc_timeout_ms(310_000, None), 310_000);
    assert_eq!(exec_rpc_timeout_ms(1_000, Some(2_000)), 7_000);
    assert_eq!(exec_rpc_timeout_ms(310_000, Some(2_000)), 310_000);
}

#[test]
fn idempotent_requests_retry_once() {
    let request_error = TransportErrorKind { is_request: true, is_connect: false, is_timeout: false, is_builder: false };
    let outcome = RpcSendOutcome::TransportError(request_error);
    assert_eq!(rpc_attempt_step(RpcRetryPolicy::IdempotentMetadata, false, outcome), RpcAttemptAction::Retry);
    assert_eq!(rpc_attempt_step(RpcRetryPolicy::IdempotentMetadata, true, outcome), RpcAttemptAction::FailTransport);
    assert_eq!(rpc_attempt_step(RpcRetryPolicy::NoRetry, false, outcome), RpcAttemptAction::FailTransport);
    let timeout = TransportErrorKind { is_request: false, is_connect: false, is_timeout: true, is_builder: false };
    assert_eq!(
        rpc_attempt_step(RpcRetryPolicy::IdempotentMetadata, false, RpcSendOutcome::TransportError(timeout)),
        RpcAttemptAction::FailAfterTimeout
    );
    assert_eq!(
        rpc_attempt_step(RpcRetryPolicy::NoRetry, false, RpcSendOutcome::Response { success: false }),
        RpcAttemptAction::HandleResponse { record_success: true }
    );
}

#[test]
fn internal_errors_travel_as_internal_error() {
    assert_eq!(RpcErrorCode::Internal.wire_value(), "internal_error");
    assert_eq!(RpcErrorCode::from_wire_value("internal_error"), Some(RpcErrorCode::Internal));
    assert_eq!(RpcErrorCode::from_wire_value("internal"), None);
}
