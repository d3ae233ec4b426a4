use remote_exec_broker::port_forward::frame::{Frame, FrameType};
use remote_exec_broker::port_forward::heartbeat::{
    ack_queue_step, heartbeat_failure_message, heartbeat_frame, heartbeat_start, heartbeat_step, reader_frame_step,
    reader_read_error, reader_step_for, AckQueueOutcome, HeartbeatAction, HeartbeatEvent, HeartbeatState, ReaderStep,
};
use remote_exec_broker::port_forward::tunnel::IoErrorKind;

fn frame(frame_type: FrameType, meta: &[u8]) -> Frame {
    Frame { frame_type, flags: 0, stream_id: 0, meta: meta.to_vec(), data: vec![7] }
}

#[test]
fn heartbeat_frames_carry_their_nonce_as_json() {
    let f = heartbeat_frame(1);
    assert_eq!(f.frame_type, FrameType::TunnelHeartbeat);
    assert_eq!(f.stream_id, 0);
    assert_eq!(f.meta, br#"{"nonce":1}"#.to_vec());
    assert_eq!(heartbeat_frame(1234567890).meta, br#"{"nonce":1234567890}"#.to_vec());
    assert!(f.data.is_empty());
}

#[test]
fn heartbeat_ack_frames_are_consumed_by_port_tunnel() {
    assert!(matches!(
        reader_frame_step(frame(FrameType::TunnelHeartbeatAck, br#"{"nonce":1}"#)),
        ReaderStep::RecordAck(1)
    ));
    assert!(matches!(reader_frame_step(frame(FrameType::TunnelHeartbeatAck, b"{not-json")), ReaderStep::SkipAck));
    match reader_frame_step(frame(FrameType::TcpData, b"payload")) {
        ReaderStep::Deliver(f) => assert_eq!(f.meta, b"payload".to_vec()),
        other => panic!("unexpected {other:?}"),
    }
}

#[test]
fn daemon_heartbeats_are_acked_with_the_same_meta() {
    match reader_step_for(frame(FrameType::TunnelHeartbeat, br#"{"nonce":9}"#), None) {
        ReaderStep::QueueAck(ack) => {
            assert_eq!(ack.frame_type, FrameType::TunnelHeartbeatAck);
            assert_eq!(ack.stream_id, 0);
            assert_eq!(ack.meta, br#"{"nonce":9}"#.to_vec());
            assert!(ack.data.is_empty());
        }
        other => panic!("unexpected {other:?}"),
    }
    assert!(ack_queue_step(AckQueueOutcome::Queued));
    assert!(ack_queue_step(AckQueueOutcome::Full));
    assert!(!ack_queue_step(AckQueueOutcome::Closed));
    assert_eq!(reader_read_error(true, "early eof".to_string()), "port tunnel closed");
    assert_eq!(reader_read_error(false, "reset".to_string()), "reset");
}

#[test]
fn heartbeat_rounds() {
    let s = heartbeat_start();
    let (s, a) = heartbeat_step(s, HeartbeatEvent::Tick);
    assert_eq!(a, HeartbeatAction::Send(1));
    let (s, a) = heartbeat_step(s, HeartbeatEvent::Queued);
    assert_eq!(a, HeartbeatAction::WaitForAck);
    let (s, a) = heartbeat_step(s, HeartbeatEvent::AckSeen(7));
    assert_eq!(a, HeartbeatAction::WaitForAck);
    let (s, a) = heartbeat_step(s, HeartbeatEvent::AckSeen(1));
    assert_eq!(a, HeartbeatAction::Sleep);
    assert_eq!(s, HeartbeatState::Idle { next_nonce: 2 });
    let (s, a) = heartbeat_step(s, HeartbeatEvent::Tick);
    assert_eq!(a, HeartbeatAction::Send(2));
    let (failed, a) = heartbeat_step(s, HeartbeatEvent::QueueFailed);
    assert_eq!(a, HeartbeatAction::Fail(IoErrorKind::BrokenPipe));
    assert_eq!(failed, HeartbeatState::Failed);
    assert_eq!(heartbeat_failure_message(IoErrorKind::BrokenPipe), "port tunnel heartbeat could not be queued");
    let (s, a) = heartbeat_step(HeartbeatState::Idle { next_nonce: u64::MAX }, HeartbeatEvent::Tick);
    assert_eq!(a, HeartbeatAction::Send(u64::MAX));
    assert_eq!(s, HeartbeatState::Sending { nonce: u64::MAX, next_nonce: u64::MAX });
}

#[test]
fn heartbeat_timeout_surfaces_retryable_transport_error() {
    let (s, _) = heartbeat_step(HeartbeatState::Idle { next_nonce: 5 }, HeartbeatEvent::Tick);
    let (s, _) = heartbeat_step(s, HeartbeatEvent::Queued);
    let (s, a) = heartbeat_step(s, HeartbeatEvent::AckTimeout);
    assert_eq!(a, HeartbeatAction::Fail(IoErrorKind::TimedOut));
    assert_eq!(s, HeartbeatState::Failed);
    assert_eq!(heartbeat_failure_message(IoErrorKind::TimedOut), "port tunnel heartbeat timed out");
    let chain = vec![remote_exec_broker::port_forward::tunnel::ErrorCause::Io(IoErrorKind::TimedOut, "port tunnel heartbeat timed out".to_string())];
    assert!(remote_exec_broker::port_forward::tunnel::is_retryable_transport_error(&chain));
}
