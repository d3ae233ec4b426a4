use remote_exec_broker::port_forward::frame::{Frame, FrameType};
use remote_exec_broker::port_forward::entry::{ForwardPortPhase, ForwardPortProtocol, ForwardPortStatus};
use remote_exec_broker::port_forward::limits::{ForwardPortLimitSummary, TunnelLimitSummary};
use remote_exec_broker::port_forward::open::plan_opened_forward;
use remote_exec_broker::port_forward::tunnel::ErrorCause;
use remote_exec_broker::port_forward::tunnel_open::{
    check_data_tunnel_generation, classify_tunnel_open_reply, frame_type_name, listen_session_ready,
    ready_timeout_message, tunnel_error_chain, TunnelOpenReply, TunnelOpenRole, TunnelReadyMeta,
};

fn frame(frame_type: FrameType, stream_id: u32, meta: &[u8]) -> Frame {
    Frame { frame_type, flags: 0, stream_id, meta: meta.to_vec(), data: Vec::new() }
}

fn contexts(chain: &[ErrorCause]) -> Vec<String> {
    chain
        .iter()
        .map(|c| match c {
            ErrorCause::Context(m) => m.clone(),
            _ => panic!("expected contexts only"),
        })
        .collect()
}

fn limits() -> TunnelLimitSummary {
    TunnelLimitSummary { max_active_tcp_streams: 32, max_udp_peers: 32, max_queued_bytes: 4096 }
}

#[test]
fn ready_reply_on_stream_zero_opens_the_tunnel() {
    assert!(matches!(
        classify_tunnel_open_reply(&frame(FrameType::TunnelReady, 0, b"{}"), TunnelOpenRole::Data, "builder-a"),
        TunnelOpenReply::Ready
    ));
}

#[test]
fn error_reply_names_the_tunnel_and_side() {
    let meta = br#"{"code":"port_tunnel_unavailable","message":"no tunnels","fatal":true}"#;
    match classify_tunnel_open_reply(&frame(FrameType::Error, 0, meta), TunnelOpenRole::ListenSession, "builder-a") {
        TunnelOpenReply::Failed(chain) => assert_eq!(
            contexts(&chain),
            vec!["opening port tunnel session on `builder-a`".to_string(), "port_tunnel_unavailable: no tunnels".to_string()]
        ),
        other => panic!("unexpected {other:?}"),
    }
}

#[test]
fn other_replies_are_unexpected() {
    match classify_tunnel_open_reply(&frame(FrameType::TcpData, 0, b""), TunnelOpenRole::Data, "local") {
        TunnelOpenReply::Unexpected(m) => assert_eq!(m, "unexpected data port tunnel response `TcpData` on `local`"),
        other => panic!("unexpected {other:?}"),
    }
    match classify_tunnel_open_reply(&frame(FrameType::TunnelReady, 3, b"{}"), TunnelOpenRole::Data, "local") {
        TunnelOpenReply::Unexpected(m) => assert_eq!(m, "unexpected data port tunnel response `TunnelReady` on `local`"),
        other => panic!("unexpected {other:?}"),
    }
    assert_eq!(frame_type_name(FrameType::UdpBindOk), "UdpBindOk");
}

#[test]
fn malformed_error_meta_falls_back_to_the_stream() {
    let chain = tunnel_error_chain(&frame(FrameType::Error, 7, b"{not-json"), "opening tcp listener".to_string());
    assert_eq!(
        contexts(&chain),
        vec!["opening tcp listener".to_string(), "port tunnel returned error on stream 7".to_string()]
    );
}

#[test]
fn listen_session_ready_needs_session_and_resume_timeout() {
    let ok = listen_session_ready(TunnelReadyMeta {
        generation: 1,
        session_id: Some("sess-1".to_string()),
        resume_timeout_ms: Some(30000),
        limits: limits(),
    })
    .unwrap();
    assert_eq!(ok.session_id, "sess-1");
    assert_eq!(ok.resume_timeout_ms, 30000);
    let err = listen_session_ready(TunnelReadyMeta { generation: 1, session_id: None, resume_timeout_ms: Some(1), limits: limits() })
        .unwrap_err();
    assert_eq!(err, "listen tunnel ready did not include session_id");
    let err = listen_session_ready(TunnelReadyMeta {
        generation: 1,
        session_id: Some("s".to_string()),
        resume_timeout_ms: None,
        limits: limits(),
    })
    .unwrap_err();
    assert_eq!(err, "listen tunnel ready did not include resume_timeout_ms");
}

#[test]
fn data_tunnel_generation_must_match() {
    assert!(check_data_tunnel_generation(4, 4, "builder-a").is_ok());
    assert_eq!(
        check_data_tunnel_generation(3, 4, "builder-a").unwrap_err(),
        "data port tunnel on `builder-a` returned generation `3` instead of `4`"
    );
    assert_eq!(ready_timeout_message(TunnelOpenRole::ListenSession), "timed out waiting for port tunnel ready");
    assert_eq!(ready_timeout_message(TunnelOpenRole::Data), "timed out waiting for data port tunnel ready");
}

#[test]
fn opened_forward_takes_the_tightest_limits() {
    let requested = ForwardPortLimitSummary {
        max_active_tcp_streams: 256,
        max_udp_peers: 256,
        max_pending_tcp_bytes_per_stream: 1024,
        max_pending_tcp_bytes_per_forward: 4096,
        max_tunnel_queued_bytes: 8192,
        max_reconnecting_forwards: 16,
    };
    let listen = TunnelLimitSummary { max_active_tcp_streams: 32, max_udp_peers: 300, max_queued_bytes: 4096 };
    let connect = TunnelLimitSummary { max_active_tcp_streams: 64, max_udp_peers: 16, max_queued_bytes: 9000 };
    let plan = plan_opened_forward(
        "fwd_1".to_string(),
        "local".to_string(),
        "127.0.0.1:40000".to_string(),
        "builder-a".to_string(),
        "127.0.0.1:5432".to_string(),
        ForwardPortProtocol::Tcp,
        requested,
        &listen,
        &connect,
    );
    assert_eq!(plan.entry.listen_endpoint, "127.0.0.1:40000");
    assert_eq!(plan.entry.status, ForwardPortStatus::Open);
    assert_eq!(plan.entry.phase, ForwardPortPhase::Ready);
    assert_eq!(plan.entry.limits.max_active_tcp_streams, 32);
    assert_eq!(plan.entry.limits.max_udp_peers, 16);
    assert_eq!(plan.entry.limits.max_tunnel_queued_bytes, 4096);
    assert_eq!(plan.entry.limits.max_pending_tcp_bytes_per_stream, 1024);
    assert_eq!(plan.limits.max_active_tcp_streams, 32);
    assert_eq!(plan.limits.max_tunnel_queued_bytes, 4096);
}
