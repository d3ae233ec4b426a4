use remote_exec_broker::port_forward::entry::ForwardPortProtocol;
use remote_exec_broker::port_forward::frame::{Frame, FrameType};
use remote_exec_broker::port_forward::loop_steps::{
    after_connect_datagram_relay, after_connector_failure, after_listen_datagram_relay, listener_error_step,
    tunnel_frame_outcome, ConnectorFailure, TunnelFrameOutcome,
};
use remote_exec_broker::port_forward::store::CounterUpdate;
use remote_exec_broker::port_forward::tunnel::{
    ErrorCause, ForwardLoopControl, ForwardSideEvent, IoErrorKind, TunnelErrorMeta, TunnelRole,
};

fn lost() -> Vec<ErrorCause> {
    vec![ErrorCause::Io(IoErrorKind::BrokenPipe, "pipe".to_string())]
}

fn denied() -> Vec<ErrorCause> {
    vec![ErrorCause::Io(IoErrorKind::Other, "denied".to_string())]
}

fn contexts(chain: &[ErrorCause]) -> Vec<String> {
    chain
        .iter()
        .filter_map(|c| match c {
            ErrorCause::Context(m) => Some(m.clone()),
            _ => None,
        })
        .collect()
}

#[test]
fn tunnel_reads_become_frames_recoveries_or_failures() {
    let frame = Frame { frame_type: FrameType::TcpData, flags: 0, stream_id: 3, meta: Vec::new(), data: vec![1] };
    match tunnel_frame_outcome(ForwardSideEvent::Frame(frame), "reading".to_string(), "tunnel".to_string()) {
        TunnelFrameOutcome::Frame(f) => assert_eq!(f.stream_id, 3),
        _ => panic!("expected the frame"),
    }
    assert!(matches!(
        tunnel_frame_outcome(ForwardSideEvent::RetryableTransportLoss, "r".to_string(), "t".to_string()),
        TunnelFrameOutcome::RecoverOnLoss
    ));
    match tunnel_frame_outcome(ForwardSideEvent::TerminalTransportError(denied()), "reading tcp listen tunnel".to_string(), "t".to_string()) {
        TunnelFrameOutcome::Fail(chain) => {
            assert_eq!(chain.len(), 2);
            assert_eq!(contexts(&chain), vec!["reading tcp listen tunnel".to_string()]);
        }
        _ => panic!("expected a failure"),
    }
    let meta = TunnelErrorMeta {
        code: Some("port_accept_failed".to_string()),
        message: "accept loop stopped".to_string(),
        fatal: true,
        stream_id: 1,
    };
    match tunnel_frame_outcome(ForwardSideEvent::TerminalTunnelError(meta), "r".to_string(), "listen-side tcp tunnel error".to_string()) {
        TunnelFrameOutcome::Fail(chain) => assert_eq!(
            contexts(&chain),
            vec!["listen-side tcp tunnel error".to_string(), "port_accept_failed: accept loop stopped".to_string()]
        ),
        _ => panic!("expected a failure"),
    }
}

#[test]
fn listener_pressure_errors_count_drops() {
    let pressure = TunnelErrorMeta {
        code: Some("port_tunnel_limit_exceeded".to_string()),
        message: "port tunnel active tcp stream limit reached".to_string(),
        fatal: false,
        stream_id: 1,
    };
    assert_eq!(listener_error_step(&pressure, ForwardPortProtocol::Tcp).unwrap(), CounterUpdate::DroppedStream);
    assert_eq!(listener_error_step(&pressure, ForwardPortProtocol::Udp).unwrap(), CounterUpdate::DroppedDatagram);
    let fatal = TunnelErrorMeta {
        code: Some("port_read_failed".to_string()),
        message: "udp read loop stopped".to_string(),
        fatal: true,
        stream_id: 1,
    };
    let chain = listener_error_step(&fatal, ForwardPortProtocol::Udp).unwrap_err();
    assert_eq!(
        contexts(&chain),
        vec!["listen-side udp tunnel error".to_string(), "port_read_failed: udp read loop stopped".to_string()]
    );
}

#[test]
fn connector_failures_drop_the_datagram() {
    assert_eq!(after_connector_failure(ConnectorFailure::LimitExceeded).unwrap(), None);
    let chain = after_connector_failure(ConnectorFailure::StreamIdsExhausted).unwrap_err();
    assert_eq!(
        contexts(&chain),
        vec!["opening udp connector stream".to_string(), "port tunnel stream id generation exhausted".to_string()]
    );
    assert_eq!(
        after_connector_failure(ConnectorFailure::BindSendFailed(lost())).unwrap(),
        Some(ForwardLoopControl::RecoverTunnel(TunnelRole::Connect))
    );
    assert!(after_connector_failure(ConnectorFailure::BindSendFailed(denied())).is_err());
}

#[test]
fn datagram_relay_failures() {
    let (dropped, next) = after_listen_datagram_relay(Ok(()));
    assert!(!dropped);
    assert_eq!(next.unwrap(), None);
    let (dropped, next) = after_listen_datagram_relay(Err(vec![ErrorCause::Backpressure]));
    assert!(dropped);
    assert_eq!(next.unwrap(), None);
    let (dropped, next) = after_listen_datagram_relay(Err(lost()));
    assert!(dropped);
    assert_eq!(next.unwrap(), Some(ForwardLoopControl::RecoverTunnel(TunnelRole::Connect)));
    let (_, next) = after_listen_datagram_relay(Err(denied()));
    assert_eq!(contexts(&next.unwrap_err()), vec!["relaying udp datagram to connect tunnel".to_string()]);
    assert_eq!(
        after_connect_datagram_relay(Err(lost())).unwrap(),
        Some(ForwardLoopControl::RecoverTunnel(TunnelRole::Listen))
    );
    assert_eq!(
        contexts(&after_connect_datagram_relay(Err(denied())).unwrap_err()),
        vec!["relaying udp datagram to listen tunnel".to_string()]
    );
}
