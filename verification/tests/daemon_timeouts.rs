use remote_exec_broker::daemon_client::connection::{
    exec_rpc_timeout_ms, recovery_message, rpc_attempt_step, rpc_deadline_error_text, timeout_error_text,
    DaemonConnectionState, RecoveryDecision, RpcAttemptAction, RpcRetryPolicy, RpcSendOutcome, TimeoutRecoveryOutcome,
    TransportErrorKind,
};

fn timeout_kind() -> TransportErrorKind {
    TransportErrorKind { is_request: false, is_connect: false, is_timeout: true, is_builder: false }
}

/// Runs one timed-out request on `state` through recovery, building a new
/// client (`next_client`) where a reset is asked for.
fn time_out(state: &mut DaemonConnectionState<u32>, generation: u64, next_client: u32) -> String {
    let outcome = match state.begin_timeout_recovery(Some(generation)) {
        RecoveryDecision::Superseded => TimeoutRecoveryOutcome::Superseded,
        RecoveryDecision::Deferred { consecutive_timeouts } => TimeoutRecoveryOutcome::Deferred { consecutive_timeouts },
        RecoveryDecision::ResetNeeded { generation } => state.finish_reset(generation, next_client),
    };
    recovery_message(Ok(outcome))
}

#[test]
fn daemon_rpc_times_out_hung_response() {
    let mut state = DaemonConnectionState::new(1u32);
    let recovery = time_out(&mut state, 0, 2);
    let err = rpc_deadline_error_text("/v1/target-info", 50, &recovery);
    assert!(err.contains("daemon rpc `/v1/target-info` timed out after 50 ms"));
    assert!(err.contains("connection was retained after 1 consecutive timeout; request was not replayed"));
}

#[test]
fn consecutive_direct_timeouts_reset_connection_without_replay() {
    let mut state = DaemonConnectionState::new(1u32);
    let first = time_out(&mut state, 0, 2);
    assert!(first.contains("connection was retained"));
    let second = time_out(&mut state, 0, 2);
    assert!(second.contains("connection was reset"));
    assert!(second.contains("request was not replayed"));
    assert_eq!(state.client, 2);
    assert_eq!(state.generation, 1);
    assert_eq!(state.consecutive_timeouts, 0);
}

#[test]
fn successful_response_clears_direct_timeout_streak() {
    let mut state = DaemonConnectionState::new(1u32);
    assert!(time_out(&mut state, 0, 2).contains("connection was retained"));
    state.record_success(0);
    let third = time_out(&mut state, 0, 2);
    assert!(third.contains("connection was retained"));
    assert!(!third.contains("connection was reset;"));
}

#[test]
fn response_headers_without_body_do_not_clear_timeout_streak() {
    let mut state = DaemonConnectionState::new(1u32);
    match rpc_attempt_step(RpcRetryPolicy::IdempotentMetadata, false, RpcSendOutcome::Response { success: true }) {
        RpcAttemptAction::HandleResponse { record_success } => assert!(!record_success),
        other => panic!("unexpected {other:?}"),
    }
    let first = time_out(&mut state, 0, 2);
    assert!(first.contains("connection was retained"));
    let second = time_out(&mut state, 0, 2);
    assert!(second.contains("connection was reset"));
    assert!(second.contains("request was not replayed"));
}

#[test]
fn response_body_read_timeouts_reset_connection_without_replay() {
    let mut state = DaemonConnectionState::new(1u32);
    let first = timeout_error_text("daemon rpc `/v1/target-info`", true, &time_out(&mut state, 0, 2));
    assert!(first.contains("timed out while reading the response body"));
    assert!(first.contains("connection was retained"));
    let second = timeout_error_text("daemon rpc `/v1/target-info`", true, &time_out(&mut state, 0, 2));
    assert!(second.contains("connection was reset"));
    assert!(second.contains("request was not replayed"));
}

#[test]
fn daemon_target_info_retries_closed_request_transport_once() {
    let closed = TransportErrorKind { is_request: true, is_connect: false, is_timeout: false, is_builder: false };
    assert_eq!(
        rpc_attempt_step(RpcRetryPolicy::IdempotentMetadata, false, RpcSendOutcome::TransportError(closed)),
        RpcAttemptAction::Retry
    );
    assert_eq!(
        rpc_attempt_step(RpcRetryPolicy::IdempotentMetadata, true, RpcSendOutcome::TransportError(closed)),
        RpcAttemptAction::FailTransport
    );
    assert_eq!(
        rpc_attempt_step(RpcRetryPolicy::NoRetry, false, RpcSendOutcome::TransportError(timeout_kind())),
        RpcAttemptAction::FailAfterTimeout
    );
}

#[test]
fn daemon_exec_rpc_times_out_hung_exec_start_response() {
    assert_eq!(exec_rpc_timeout_ms(50, None), 50);
    let err = rpc_deadline_error_text("/v1/exec/start", 50, "x");
    assert!(err.contains("daemon rpc `/v1/exec/start` timed out after 50 ms"));
}

#[test]
fn daemon_exec_rpc_times_out_hung_exec_write_response() {
    let err = rpc_deadline_error_text("/v1/exec/write", exec_rpc_timeout_ms(50, None) as u64, "x");
    assert!(err.contains("daemon rpc `/v1/exec/write` timed out after 50 ms"));
}

#[test]
fn daemon_exec_start_timeout_accounts_for_requested_yield_time() {
    let timeout = exec_rpc_timeout_ms(50, Some(100));
    assert_eq!(timeout, 5100);
    assert!(timeout > 125);
}

#[test]
fn daemon_exec_write_timeout_accounts_for_requested_yield_time() {
    assert!(exec_rpc_timeout_ms(50, Some(100)) > 125);
    assert_eq!(exec_rpc_timeout_ms(10_000, Some(100)), 10_000);
}
