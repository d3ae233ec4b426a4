use remote_exec_broker::port_forward::entry::{ForwardPortEntry, ForwardPortProtocol, ForwardPortStatus};
use remote_exec_broker::port_forward::frame::FrameType;
use remote_exec_broker::port_forward::generation::StreamIdAllocator;
use remote_exec_broker::port_forward::limits::ForwardPortLimitSummary;
use remote_exec_broker::port_forward::listen_close::{listen_close_start, ListenCloseStart};
use remote_exec_broker::port_forward::loop_steps::{
    forward_drop_update, forward_drop_update_from, udp_connect_frame_step, udp_listen_frame_step, UdpConnectAction,
    UdpListenAction,
};
use remote_exec_broker::port_forward::open::{after_listener_send, after_listener_wait, ListenerOpenStep};
use remote_exec_broker::port_forward::udp_connectors::{UdpConnectorMap, UdpPeerConnector};
use remote_exec_broker::port_forward::store::{CounterUpdate, PortForwardFilter, PortForwardRecord, PortForwardStore};
use remote_exec_broker::port_forward::tcp_ledger::{AcceptStart, TcpForwardLedger};
use remote_exec_broker::port_forward::tcp_steps::{tcp_epoch_step, TcpEpochAction};
use remote_exec_broker::port_forward::tunnel::TunnelRole;

fn record(forward_id: &str) -> PortForwardRecord<()> {
    PortForwardRecord {
        entry: ForwardPortEntry::new_open(
            forward_id.to_string(),
            "local".to_string(),
            "127.0.0.1:10000".to_string(),
            "builder-a".to_string(),
            "127.0.0.1:10001".to_string(),
            ForwardPortProtocol::Tcp,
            ForwardPortLimitSummary {
                max_active_tcp_streams: 4,
                max_udp_peers: 4,
                max_pending_tcp_bytes_per_stream: 1024,
                max_pending_tcp_bytes_per_forward: 4096,
                max_tunnel_queued_bytes: 4096,
                max_reconnecting_forwards: 1,
            },
        ),
        close_handle: (),
    }
}

#[test]
fn odd_allocator_hands_out_every_odd_id_then_stops() {
    let mut allocator = StreamIdAllocator::new_odd();
    for k in 0..5u32 {
        assert_eq!(allocator.next(), Some(1 + 2 * k));
    }
    allocator.set_next_for_test(u32::MAX - 4);
    assert_eq!(allocator.next(), Some(u32::MAX - 4));
    assert_eq!(allocator.next(), Some(u32::MAX - 2));
    assert!(allocator.needs_generation_rotation());
    assert_eq!(allocator.next(), None);
    assert_eq!(allocator.next(), None);
}

#[test]
fn tcp_epoch_dispatch() {
    let mut ledger = TcpForwardLedger::new();
    assert_eq!(tcp_epoch_step(&ledger, TunnelRole::Listen, FrameType::TcpAccept, 2, 1), TcpEpochAction::Accept);
    let (start, _) = ledger.begin_accept(2, 4);
    let connect = match start {
        AcceptStart::Connect(c) => c,
        other => panic!("unexpected {other:?}"),
    };
    ledger.finish_accept(true);
    assert_eq!(
        tcp_epoch_step(&ledger, TunnelRole::Listen, FrameType::TcpData, 2, 1),
        TcpEpochAction::QueueForConnect(connect)
    );
    assert_eq!(
        tcp_epoch_step(&ledger, TunnelRole::Listen, FrameType::TcpEof, 2, 1),
        TcpEpochAction::ListenEof { connect, ready: false }
    );
    assert_eq!(tcp_epoch_step(&ledger, TunnelRole::Listen, FrameType::TcpData, 9, 1), TcpEpochAction::Ignore);
    assert_eq!(tcp_epoch_step(&ledger, TunnelRole::Listen, FrameType::Error, 1, 1), TcpEpochAction::ListenerError);
    assert_eq!(tcp_epoch_step(&ledger, TunnelRole::Listen, FrameType::Error, 2, 1), TcpEpochAction::ListenStreamError);
    assert_eq!(tcp_epoch_step(&ledger, TunnelRole::Listen, FrameType::Close, 2, 1), TcpEpochAction::ListenClose);
    assert_eq!(tcp_epoch_step(&ledger, TunnelRole::Listen, FrameType::ForwardDrop, 1, 1), TcpEpochAction::ForwardDrop);
    assert_eq!(
        tcp_epoch_step(&ledger, TunnelRole::Connect, FrameType::TcpConnectOk, connect, 1),
        TcpEpochAction::ConnectReady(connect)
    );
    ledger.mark_ready_and_take_pending(connect);
    assert_eq!(
        tcp_epoch_step(&ledger, TunnelRole::Listen, FrameType::TcpData, 2, 1),
        TcpEpochAction::SendToConnect(connect)
    );
    assert_eq!(
        tcp_epoch_step(&ledger, TunnelRole::Connect, FrameType::TcpData, connect, 1),
        TcpEpochAction::SendToListen(2)
    );
    assert_eq!(
        tcp_epoch_step(&ledger, TunnelRole::Connect, FrameType::TcpEof, connect, 1),
        TcpEpochAction::ConnectEof { listen: 2 }
    );
    assert_eq!(
        tcp_epoch_step(&ledger, TunnelRole::Connect, FrameType::Error, connect, 1),
        TcpEpochAction::ConnectError(connect)
    );
    assert_eq!(
        tcp_epoch_step(&ledger, TunnelRole::Connect, FrameType::Close, connect, 1),
        TcpEpochAction::ConnectClose(connect)
    );
    assert_eq!(tcp_epoch_step(&ledger, TunnelRole::Connect, FrameType::TcpConnectOk, 99, 1), TcpEpochAction::Ignore);
    assert_eq!(tcp_epoch_step(&ledger, TunnelRole::Connect, FrameType::UdpBindOk, connect, 1), TcpEpochAction::Ignore);
}

#[test]
fn close_steps_collect_closed_entries_or_restore() {
    let mut store = PortForwardStore::new();
    store.insert(record("fwd_a"));
    store.insert(record("fwd_b"));
    let candidates = store.take_close_candidates(&vec!["fwd_a".to_string(), "fwd_b".to_string()]).unwrap();
    let mut closed = Vec::new();
    let rest = store.close_step(candidates, Ok(()), &mut closed).unwrap();
    assert_eq!(closed.len(), 1);
    assert_eq!(closed[0].forward_id, "fwd_a");
    assert_eq!(closed[0].status, ForwardPortStatus::Closed);
    let err = match store.close_step(rest, Err("stuck".to_string()), &mut closed) {
        Err(e) => e,
        Ok(_) => panic!("expected the close to fail"),
    };
    assert_eq!(err, "closing port forward `fwd_b`: stuck");
    assert_eq!(closed.len(), 1);
    let back = store
        .list(&PortForwardFilter { listen_side: None, connect_side: None, forward_ids: vec!["fwd_b".to_string()] })
        .remove(0);
    assert_eq!(back.status, ForwardPortStatus::Failed);
}

#[test]
fn close_listen_session_without_retained_tunnel_is_a_noop() {
    assert_eq!(listen_close_start::<u8>(&None), ListenCloseStart::Done);
    assert_eq!(listen_close_start(&Some(3u8)), ListenCloseStart::CloseListener);
}

#[test]
fn drop_reports_become_counter_updates() {
    assert_eq!(
        forward_drop_update(br#"{"kind":"tcp_stream","count":2,"code":"port_tunnel_limit_exceeded"}"#).unwrap(),
        CounterUpdate::ReportedDroppedStreams(2)
    );
    assert_eq!(
        forward_drop_update(br#"{"kind":"udp_datagram","count":3}"#).unwrap(),
        CounterUpdate::ReportedDroppedDatagrams(3)
    );
    assert_eq!(forward_drop_update(b"{not-json").unwrap_err(), "invalid forward drop report");
    assert_eq!(forward_drop_update(br#"{"kind":"sctp","count":1}"#).unwrap_err(), "invalid forward drop report");
    assert_eq!(
        forward_drop_update_from(Some((Some("tcp_stream".to_string()), Some(0)))).unwrap(),
        CounterUpdate::ReportedDroppedStreams(0)
    );
}

#[test]
fn udp_dispatch() {
    assert_eq!(udp_listen_frame_step(FrameType::UdpDatagram, 1, 1), UdpListenAction::Relay);
    assert_eq!(udp_listen_frame_step(FrameType::Close, 1, 1), UdpListenAction::Cancelled);
    assert_eq!(udp_listen_frame_step(FrameType::Error, 1, 1), UdpListenAction::ListenerError);
    assert_eq!(udp_listen_frame_step(FrameType::Error, 5, 1), UdpListenAction::Ignore);
    assert_eq!(udp_listen_frame_step(FrameType::ForwardDrop, 1, 1), UdpListenAction::ForwardDrop);
    assert_eq!(udp_listen_frame_step(FrameType::TcpData, 1, 1), UdpListenAction::Ignore);
    let mut connectors = UdpConnectorMap::new();
    connectors.insert("127.0.0.1:10000".to_string(), 3, UdpPeerConnector { stream_id: 3, last_used_ms: 0 });
    match udp_connect_frame_step(&connectors, FrameType::UdpDatagram, 3) {
        UdpConnectAction::RelayToPeer(p) => assert_eq!(p, "127.0.0.1:10000"),
        other => panic!("unexpected {other:?}"),
    }
    assert!(matches!(udp_connect_frame_step(&connectors, FrameType::UdpDatagram, 5), UdpConnectAction::Ignore));
    assert!(matches!(udp_connect_frame_step(&connectors, FrameType::Error, 3), UdpConnectAction::DropAndRemove(3)));
    assert!(matches!(udp_connect_frame_step(&connectors, FrameType::Close, 3), UdpConnectAction::Remove(3)));
    assert!(matches!(udp_connect_frame_step(&connectors, FrameType::UdpBindOk, 3), UdpConnectAction::Ignore));
    assert!(matches!(udp_connect_frame_step(&connectors, FrameType::ForwardDrop, 3), UdpConnectAction::Ignore));
}

#[test]
fn listen_open_failure_aborts_already_opened_connect_tunnel() {
    assert!(matches!(after_listener_send::<String>(Ok(())), ListenerOpenStep::Wait));
    assert!(matches!(after_listener_send(Err("send failed".to_string())), ListenerOpenStep::Fail(e) if e == "send failed"));
    assert!(matches!(
        after_listener_wait::<String>(Ok("127.0.0.1:40000".to_string())),
        ListenerOpenStep::Ready(ep) if ep == "127.0.0.1:40000"
    ));
    assert!(matches!(
        after_listener_wait::<String>(Err("listen refused".to_string())),
        ListenerOpenStep::AbortConnectThenFail(e) if e == "listen refused"
    ));
}
