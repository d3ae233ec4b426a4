use remote_exec_broker::port_forward::frame::{Frame, FrameType};
use remote_exec_broker::port_forward::listen_close::{
    after_listener_close, after_tunnel_close, classify_close_ack, classify_tunnel_closed, close_ack_timeout_message,
    tunnel_closed_timeout_message, AckWait, ListenCloseStep,
};
use remote_exec_broker::port_forward::tunnel::{ErrorCause, IoErrorKind};

fn frame(frame_type: FrameType, stream_id: u32, meta: &[u8]) -> Frame {
    Frame { frame_type, flags: 0, stream_id, meta: meta.to_vec(), data: Vec::new() }
}

fn lost() -> Vec<ErrorCause> {
    vec![ErrorCause::Io(IoErrorKind::UnexpectedEof, "eof".to_string())]
}

fn denied() -> Vec<ErrorCause> {
    vec![ErrorCause::Io(IoErrorKind::Other, "denied".to_string())]
}

#[test]
fn listener_close_is_acknowledged_by_a_close_on_its_stream() {
    assert!(matches!(classify_close_ack(&frame(FrameType::Close, 1, b""), 1), AckWait::Done));
    assert!(matches!(classify_close_ack(&frame(FrameType::Close, 3, b""), 1), AckWait::Ignore));
    match classify_close_ack(&frame(FrameType::Error, 1, br#"{"message":"close refused"}"#), 1) {
        AckWait::Failed(chain) => {
            assert_eq!(chain.len(), 1);
            assert!(matches!(&chain[0], ErrorCause::Context(m) if m == "close refused"));
        }
        other => panic!("unexpected {other:?}"),
    }
}

#[test]
fn tunnel_close_is_acknowledged_for_its_generation_only() {
    let closed = frame(FrameType::TunnelClosed, 0, b"{}");
    assert!(matches!(classify_tunnel_closed(&closed, Ok(4), 4), Ok(AckWait::Done)));
    assert!(matches!(classify_tunnel_closed(&closed, Ok(3), 4), Ok(AckWait::Ignore)));
    assert_eq!(classify_tunnel_closed(&closed, Err("bad meta".to_string()), 4).unwrap_err(), "bad meta");
    assert!(matches!(
        classify_tunnel_closed(&frame(FrameType::Error, 0, b"{not-json"), Ok(0), 4),
        Ok(AckWait::Failed(_))
    ));
    assert!(matches!(classify_tunnel_closed(&frame(FrameType::TcpData, 0, b""), Ok(4), 4), Ok(AckWait::Ignore)));
}

#[test]
fn listener_close_steps() {
    assert!(matches!(after_listener_close(Ok(())), ListenCloseStep::CloseTunnel));
    assert!(matches!(after_listener_close(Err(lost())), ListenCloseStep::ResumeAndCloseAgain));
    assert!(matches!(after_listener_close(Err(denied())), ListenCloseStep::Fail(_)));
}

#[test]
fn lost_tunnel_after_listener_ack_is_no_failure() {
    assert!(after_tunnel_close(Ok(())).is_ok());
    assert!(after_tunnel_close(Err(lost())).is_ok());
    assert_eq!(after_tunnel_close(Err(denied())).unwrap_err().len(), 1);
    assert_eq!(close_ack_timeout_message(), "timed out waiting for port forward close acknowledgement");
    assert_eq!(tunnel_closed_timeout_message(), "timed out waiting for port tunnel close acknowledgement");
}
