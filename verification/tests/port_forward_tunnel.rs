use remote_exec_broker::daemon_client::error::{decode_rpc_error_body, DaemonClientError};
use remote_exec_broker::port_forward::entry::ForwardPortProtocol;
use remote_exec_broker::port_forward::frame::{Frame, FrameType};
use remote_exec_broker::port_forward::open::{
    classify_listener_frame, open_context, ForwardOpenKind, ForwardSide, ListenerWait,
};
use remote_exec_broker::port_forward::reconnect::{
    effective_resume_timeout, port_tunnel_heartbeat_interval, port_tunnel_heartbeat_timeout,
    reconnect_error_message, timings, PortForwardReconnectPolicy, ReconnectAction, ReconnectEvent,
    ReconnectState,
};
use remote_exec_broker::port_forward::tunnel::{
    classify_connect_send, classify_recoverable_tunnel_event, classify_transport_failure,
    decode_tunnel_error_frame, format_terminal_tunnel_error, is_backpressure_error,
    is_recoverable_pressure_tunnel_error, is_retryable_transport_error, ConnectTunnelFrameSend, ErrorCause,
    ForwardLoopControl, ForwardSideEvent, IoErrorKind, TunnelErrorMeta, TunnelQueueBudget, TunnelRole,
};

const TUNNEL_ERROR_CODE_LISTENER_OPEN_FAILED: &str = "listener_open_failed";

fn error_frame(stream_id: u32, meta: &[u8]) -> Frame {
    Frame { frame_type: FrameType::Error, flags: 0, stream_id, meta: meta.to_vec(), data: Vec::new() }
}

#[test]
fn decode_tunnel_error_frame_uses_proto_defaults_for_partial_meta() {
    let frame = error_frame(7, b"{\"message\":\"listen refused\"}");
    let meta = decode_tunnel_error_frame(&frame);
    assert_eq!(meta.code, None);
    assert_eq!(meta.message, "listen refused");
    assert!(!meta.fatal);
    assert_eq!(meta.stream_id, 7);
}

#[test]
fn decode_tunnel_error_frame_falls_back_for_malformed_meta() {
    let frame = error_frame(7, b"{not-json");
    let meta = decode_tunnel_error_frame(&frame);
    assert_eq!(meta.code, None);
    assert_eq!(meta.message, "port tunnel returned error on stream 7");
    assert!(meta.fatal);
}

#[test]
fn format_terminal_tunnel_error_uses_shared_proto_code() {
    let meta = TunnelErrorMeta {
        code: Some(TUNNEL_ERROR_CODE_LISTENER_OPEN_FAILED.to_string()),
        message: "listen refused".to_string(),
        fatal: true,
        stream_id: 11,
    };
    assert_eq!(
        format_terminal_tunnel_error(&meta),
        format!("{TUNNEL_ERROR_CODE_LISTENER_OPEN_FAILED}: listen refused")
    );
}

#[test]
fn terminal_error_without_code_is_its_message() {
    let meta = TunnelErrorMeta { code: None, message: "gone".to_string(), fatal: true, stream_id: 1 };
    assert_eq!(format_terminal_tunnel_error(&meta), "gone");
}

#[test]
fn fatal_error_frames_end_the_forward_and_others_pass() {
    let fatal = error_frame(3, b"{\"code\":\"internal_error\",\"message\":\"boom\",\"fatal\":true}");
    match classify_recoverable_tunnel_event(Ok(fatal)) {
        ForwardSideEvent::TerminalTunnelError(meta) => {
            assert_eq!(meta.code.as_deref(), Some("internal_error"));
            assert_eq!(meta.message, "boom");
        }
        other => panic!("unexpected event: {other:?}"),
    }
    let soft = error_frame(3, b"{\"message\":\"soft\"}");
    assert!(matches!(classify_recoverable_tunnel_event(Ok(soft)), ForwardSideEvent::Frame(_)));
    let data = Frame { frame_type: FrameType::TcpData, flags: 0, stream_id: 5, meta: Vec::new(), data: vec![1] };
    assert!(matches!(classify_recoverable_tunnel_event(Ok(data)), ForwardSideEvent::Frame(_)));
}

#[test]
fn lost_transports_are_retryable() {
    let io = vec![ErrorCause::Context("reading".to_string()), ErrorCause::Io(IoErrorKind::BrokenPipe, "pipe".to_string())];
    assert!(is_retryable_transport_error(&io));
    assert!(matches!(classify_recoverable_tunnel_event(Err(io)), ForwardSideEvent::RetryableTransportLoss));

    let other = vec![ErrorCause::Io(IoErrorKind::Other, "denied".to_string())];
    assert!(!is_retryable_transport_error(&other));
    assert!(matches!(
        classify_recoverable_tunnel_event(Err(other)),
        ForwardSideEvent::TerminalTransportError(_)
    ));

    let daemon = vec![ErrorCause::Daemon(DaemonClientError::Transport("reset".to_string()))];
    assert!(is_retryable_transport_error(&daemon));
    let unavailable = decode_rpc_error_body(
        503,
        "503 Service Unavailable".to_string(),
        "{\"code\":\"port_tunnel_unavailable\",\"message\":\"later\"}".to_string(),
    );
    assert!(is_retryable_transport_error(&vec![ErrorCause::Daemon(unavailable)]));
}

#[test]
fn transport_failures_recover_their_tunnel_or_fail() {
    let lost = vec![ErrorCause::Io(IoErrorKind::ConnectionReset, "reset".to_string())];
    assert_eq!(
        classify_transport_failure(lost, "relaying".to_string(), TunnelRole::Listen).unwrap(),
        ForwardLoopControl::RecoverTunnel(TunnelRole::Listen)
    );
    let denied = vec![ErrorCause::Io(IoErrorKind::Other, "denied".to_string())];
    let chain = classify_transport_failure(denied, "relaying".to_string(), TunnelRole::Connect).unwrap_err();
    assert_eq!(chain.len(), 2);
    assert!(matches!(&chain[0], ErrorCause::Context(c) if c == "relaying"));
}

#[test]
fn backpressure_is_told_apart() {
    let chain = vec![ErrorCause::Context("relaying".to_string()), ErrorCause::Backpressure];
    assert!(is_backpressure_error(&chain));
    assert!(matches!(classify_connect_send(Err(chain), "ctx".to_string()), ConnectTunnelFrameSend::Backpressure));
    assert!(matches!(classify_connect_send(Ok(()), "ctx".to_string()), ConnectTunnelFrameSend::Sent));
    let lost = vec![ErrorCause::Io(IoErrorKind::TimedOut, "t".to_string())];
    assert!(matches!(classify_connect_send(Err(lost), "ctx".to_string()), ConnectTunnelFrameSend::Retryable));
}

#[test]
fn pressure_errors_are_recoverable() {
    let meta = TunnelErrorMeta {
        code: Some("port_tunnel_limit_exceeded".to_string()),
        message: "busy".to_string(),
        fatal: false,
        stream_id: 1,
    };
    assert!(is_recoverable_pressure_tunnel_error(&meta));
    let other = TunnelErrorMeta { code: Some("internal_error".to_string()), ..meta.clone() };
    assert!(!is_recoverable_pressure_tunnel_error(&other));
}

#[test]
fn queue_budget_refuses_what_does_not_fit() {
    let mut budget = TunnelQueueBudget::new(10);
    assert!(budget.reserve(6));
    assert!(!budget.reserve(5));
    assert_eq!(budget.queued_bytes(), 6);
    assert!(budget.reserve(4));
    assert!(budget.reserve(0));
    assert!(!budget.reserve(11));
    budget.release(6);
    assert_eq!(budget.queued_bytes(), 4);
}

#[test]
fn reserve_then_release_restores_the_budget() {
    let mut budget = TunnelQueueBudget::new(100);
    assert!(budget.reserve(30));
    let before = budget.queued_bytes();
    assert!(budget.reserve(25));
    budget.release(25);
    assert_eq!(budget.queued_bytes(), before);
}

#[test]
fn resume_timeout_keeps_a_safety_margin() {
    assert_eq!(effective_resume_timeout(10_000), 9_750);
    assert_eq!(effective_resume_timeout(250), 250);
    assert_eq!(effective_resume_timeout(100), 100);
    assert_eq!(PortForwardReconnectPolicy::listen(10_000).total_timeout_ms, 9_750);
    assert_eq!(PortForwardReconnectPolicy::connect().total_timeout_ms, 10_000);
}

#[test]
fn heartbeat_timings() {
    assert_eq!(port_tunnel_heartbeat_interval(None), 10_000);
    assert_eq!(port_tunnel_heartbeat_timeout(None), 30_000);
    assert_eq!(port_tunnel_heartbeat_interval(Some(25)), 25);
    assert_eq!(timings().heartbeat_interval_ms, 10_000);
}

#[test]
fn reconnect_loop_backs_off_and_stops_at_the_deadline() {
    let policy = PortForwardReconnectPolicy::connect();
    let mut state = ReconnectState::start(&policy, 1_000);
    assert_eq!(state.deadline_ms, 11_000);
    assert_eq!(state.step(&policy, ReconnectEvent::Started, false, 1_000), ReconnectAction::Attempt(2_000));
    assert_eq!(state.step(&policy, ReconnectEvent::AttemptFailedRetryable, false, 1_100), ReconnectAction::Sleep(50));
    assert_eq!(state.step(&policy, ReconnectEvent::Slept, false, 1_150), ReconnectAction::Attempt(2_000));
    assert_eq!(state.backoff_ms, 100);
    assert_eq!(state.attempts, 2);
    assert_eq!(state.step(&policy, ReconnectEvent::AttemptTimedOut, false, 10_990), ReconnectAction::Sleep(10));
    assert_eq!(state.step(&policy, ReconnectEvent::Slept, false, 11_000), ReconnectAction::TimedOut);
    assert_eq!(
        reconnect_error_message(ReconnectAction::TimedOut).as_deref(),
        Some("port tunnel reconnect timed out")
    );
}

#[test]
fn reconnect_loop_caps_backoff_and_honours_cancel() {
    let policy = PortForwardReconnectPolicy::connect();
    let mut state = ReconnectState::start(&policy, 0);
    let _ = state.step(&policy, ReconnectEvent::Started, false, 0);
    for _ in 0..6 {
        let _ = state.step(&policy, ReconnectEvent::Slept, false, 0);
    }
    assert_eq!(state.backoff_ms, 500);
    assert_eq!(state.step(&policy, ReconnectEvent::Started, true, 0), ReconnectAction::Cancelled);
    assert_eq!(state.step(&policy, ReconnectEvent::AttemptSucceeded, false, 0), ReconnectAction::Reopened);
    assert_eq!(state.step(&policy, ReconnectEvent::AttemptFailedTerminal, false, 0), ReconnectAction::Failed);
    let limited = PortForwardReconnectPolicy { max_attempts: Some(1), ..policy };
    let mut once = ReconnectState::start(&limited, 0);
    assert_eq!(once.step(&limited, ReconnectEvent::Started, false, 0), ReconnectAction::Attempt(2_000));
    assert_eq!(
        once.step(&limited, ReconnectEvent::AttemptTimedOut, false, 11_000),
        ReconnectAction::AttemptsExhausted
    );
}

#[test]
fn opening_steps_are_named_per_protocol() {
    let tcp = ForwardOpenKind::for_protocol(ForwardPortProtocol::Tcp);
    assert_eq!(tcp.listen_frame_type, FrameType::TcpListen);
    assert_eq!(tcp.listen_ok_frame_type, FrameType::TcpListenOk);
    let udp = ForwardOpenKind::for_protocol(ForwardPortProtocol::Udp);
    assert_eq!(udp.listen_frame_type, FrameType::UdpBind);
    assert_eq!(
        open_context(tcp, ForwardSide::Listen, "builder-a", "127.0.0.1:8080"),
        "opening tcp listener on `builder-a` at `127.0.0.1:8080`"
    );
    assert_eq!(open_context(udp, ForwardSide::Connect, "local", "x"), "opening udp data port tunnel on `local`");
    let ok = Frame { frame_type: FrameType::TcpListenOk, flags: 0, stream_id: 1, meta: Vec::new(), data: Vec::new() };
    assert_eq!(classify_listener_frame(&ok, 1, FrameType::TcpListenOk), ListenerWait::Ready);
    assert_eq!(classify_listener_frame(&ok, 3, FrameType::TcpListenOk), ListenerWait::Ignore);
    let err = error_frame(1, b"{}");
    assert_eq!(classify_listener_frame(&err, 1, FrameType::TcpListenOk), ListenerWait::Failed);
}
