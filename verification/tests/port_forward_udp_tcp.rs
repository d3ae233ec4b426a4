use remote_exec_broker::port_forward::frame::{frame_data_bytes, Frame, FrameType};
use remote_exec_broker::port_forward::generation::StreamIdAllocator;
use remote_exec_broker::port_forward::tcp_state::{PendingQueueResult, TcpForwardState};
use remote_exec_broker::port_forward::udp_connectors::{
    udp_connector_stream_id, UdpConnectorChoice, UdpConnectorError, UdpConnectorMap, UdpPeerConnector,
};

#[test]
fn connector_map_inserts_and_updates_by_peer() {
    let mut map = UdpConnectorMap::new();
    let before = 1_000u64;
    let after = 6_000u64;
    map.insert("127.0.0.1:10000".to_string(), 3, UdpPeerConnector { stream_id: 3, last_used_ms: before });

    let stream_id = map.refresh("127.0.0.1:10000", after);
    assert_eq!(stream_id, Some(3));
    assert_eq!(map.len(), 1);
}

#[test]
fn connector_map_removes_by_stream_id() {
    let mut map = UdpConnectorMap::new();
    map.insert("127.0.0.1:10000".to_string(), 5, UdpPeerConnector { stream_id: 5, last_used_ms: 0 });

    let removed = map.remove_by_stream_id(5);
    assert_eq!(removed.map(|connector| connector.stream_id), Some(5));
    assert_eq!(map.peer_for_stream_id(5), None);
    assert_eq!(map.len(), 0);
}

#[test]
fn connector_map_sweeps_idle_connectors() {
    let mut map = UdpConnectorMap::new();
    let now = 100_000u64;
    map.insert("127.0.0.1:10000".to_string(), 7, UdpPeerConnector { stream_id: 7, last_used_ms: now - 61_000 });
    map.insert("127.0.0.1:10001".to_string(), 9, UdpPeerConnector { stream_id: 9, last_used_ms: now });

    let removed = map.sweep_idle(now, 60_000);
    assert_eq!(removed.len(), 1);
    assert_eq!(removed[0].0, 7);
    assert_eq!(map.peer_for_stream_id(7), None);
    assert_eq!(map.peer_for_stream_id(9).as_deref(), Some("127.0.0.1:10001"));
    assert_eq!(map.len(), 1);
}

#[test]
fn connector_map_sweep_keeps_recently_refreshed_connectors() {
    let mut map = UdpConnectorMap::new();
    let old = 0u64;
    let fresh = 120_000u64;
    map.insert("127.0.0.1:10000".to_string(), 7, UdpPeerConnector { stream_id: 7, last_used_ms: old });
    map.refresh("127.0.0.1:10000", fresh);

    let removed = map.sweep_idle(fresh, 60_000);
    assert!(removed.is_empty());
    assert_eq!(map.len(), 1);
}

#[test]
fn udp_connector_limit_refuses_new_peer_without_evicting_existing_peer() {
    let mut connectors = UdpConnectorMap::new();
    const MAX_UDP_PEERS: usize = 3;
    let now = 10_000u64;
    for idx in 0..MAX_UDP_PEERS {
        let stream_id = (idx as u32 * 2) + 3;
        let last_used = now - (idx as u64 + 1) * 1_000;
        let peer = format!("127.0.0.1:{}", 10_000 + idx);
        connectors.insert(peer, stream_id, UdpPeerConnector { stream_id, last_used_ms: last_used });
    }

    let mut connector_stream_ids = StreamIdAllocator::new_odd_from(9);
    let result = udp_connector_stream_id(&mut connectors, &mut connector_stream_ids, "127.0.0.1:65535", MAX_UDP_PEERS, now);
    assert_eq!(result, Err(UdpConnectorError::LimitExceeded));

    assert_eq!(connectors.len(), MAX_UDP_PEERS);
    assert!(connectors.refresh("127.0.0.1:65535", now).is_none());
}

#[test]
fn known_peers_reuse_their_stream_and_new_peers_get_fresh_ids() {
    let mut connectors = UdpConnectorMap::new();
    connectors.insert("peer-a".to_string(), 3, UdpPeerConnector { stream_id: 3, last_used_ms: 0 });
    let mut ids = StreamIdAllocator::new_odd_from(5);
    assert_eq!(udp_connector_stream_id(&mut connectors, &mut ids, "peer-a", 8, 10), Ok(UdpConnectorChoice::Existing(3)));
    assert_eq!(udp_connector_stream_id(&mut connectors, &mut ids, "peer-b", 8, 10), Ok(UdpConnectorChoice::Allocated(5)));
    let mut spent = StreamIdAllocator::new_odd();
    spent.set_next_for_test(u32::MAX - 2);
    assert_eq!(spent.next(), Some(u32::MAX - 2));
    assert_eq!(
        udp_connector_stream_id(&mut connectors, &mut spent, "peer-c", 8, 10),
        Err(UdpConnectorError::StreamIdsExhausted)
    );
}

fn data_frame(stream_id: u32, bytes: usize) -> Frame {
    Frame { frame_type: FrameType::TcpData, flags: 0, stream_id, meta: Vec::new(), data: vec![0u8; bytes] }
}

#[test]
fn pending_tcp_data_is_bounded_per_stream_and_per_forward() {
    let mut state = TcpForwardState::new();
    state.record_tcp_stream_pair(2, 1);
    state.record_tcp_stream_pair(4, 3);
    assert_eq!(state.connect_for_listen(2), Some(1));
    assert_eq!(state.listen_for_connect(3), Some(4));
    assert_eq!(state.stream_ready(1), Some(false));
    assert_eq!(state.try_queue_pending_frame(1, data_frame(1, 60), 100, 150), Some(PendingQueueResult::Queued));
    assert_eq!(
        state.try_queue_pending_frame(1, data_frame(1, 50), 100, 150),
        Some(PendingQueueResult::LimitExceeded { listen_stream_id: 2 })
    );
    assert_eq!(state.try_queue_pending_frame(3, data_frame(3, 90), 100, 150), Some(PendingQueueResult::Queued));
    assert_eq!(
        state.try_queue_pending_frame(3, data_frame(3, 5), 100, 150),
        Some(PendingQueueResult::LimitExceeded { listen_stream_id: 4 })
    );
    assert_eq!(state.try_queue_pending_frame(9, data_frame(9, 1), 100, 150), None);
    let pending = state.mark_ready_and_take_pending(1).unwrap();
    assert_eq!(pending.len(), 1);
    assert_eq!(state.stream_ready(1), Some(true));
    assert_eq!(state.try_queue_pending_frame(3, data_frame(3, 5), 100, 150), Some(PendingQueueResult::Queued));
}

#[test]
fn tcp_pairs_close_after_both_sides_end() {
    let mut state = TcpForwardState::new();
    state.record_tcp_stream_pair(2, 1);
    assert!(state.mark_listen_eof(1));
    assert_eq!(state.is_fully_eof(1), Some(false));
    assert_eq!(state.mark_connect_eof(1), Some(2));
    assert_eq!(state.is_fully_eof(1), Some(true));
    let removed = state.remove_stream_entry(1).unwrap();
    assert_eq!(removed.listen_stream_id, 2);
    assert_eq!(state.connect_for_listen(2), None);
    assert_eq!(state.remove_listen_pair(2), None);
}

#[test]
fn losing_the_connect_tunnel_takes_every_stream() {
    let mut state = TcpForwardState::new();
    state.record_tcp_stream_pair(2, 1);
    state.record_tcp_stream_pair(4, 3);
    let streams = state.take_all_streams();
    assert_eq!(streams.len(), 2);
    assert_eq!(state.connect_for_listen(2), None);
    assert_eq!(state.stream_ready(3), None);
}

#[test]
fn frame_bytes_count_meta_and_data() {
    let frame = Frame { frame_type: FrameType::TcpData, flags: 0, stream_id: 1, meta: vec![1, 2], data: vec![3, 4, 5] };
    assert_eq!(frame_data_bytes(&frame), 5);
    let close = Frame::close(9);
    assert_eq!(close.frame_type, FrameType::Close);
    assert_eq!(close.stream_id, 9);
}

use remote_exec_broker::port_forward::store::CounterUpdate;
use remote_exec_broker::port_forward::tcp_ledger::{AcceptStart, Settlement, TcpForwardLedger};

#[test]
fn tcp_accept_send_failure_recovers_connect_tunnel_without_leaking_active_stream() {
    let mut ledger = TcpForwardLedger::new();
    let (start, updates) = ledger.begin_accept(2, 8);
    assert_eq!(start, AcceptStart::Connect(1));
    assert_eq!(updates, vec![CounterUpdate::ReservedActiveStream]);
    assert_eq!(ledger.active_streams(), 1);
    let (listen, update) = ledger.finish_accept(false);
    assert_eq!(listen, 2);
    assert_eq!(update, Some(CounterUpdate::DroppedActiveStreams(1)));
    assert_eq!(ledger.active_streams(), 0);
    assert_eq!(ledger.connect_for_listen(2), None);
}

#[test]
fn pending_tcp_data_limit_drops_unready_stream_without_leaking_active_count() {
    let mut ledger = TcpForwardLedger::new();
    let _ = ledger.begin_accept(2, 8);
    let _ = ledger.finish_accept(true);
    assert_eq!(ledger.connect_for_listen(2), Some(1));
    assert_eq!(
        ledger.try_queue_pending_frame(1, data_frame(1, 64), 32, 1024),
        Some(PendingQueueResult::LimitExceeded { listen_stream_id: 2 })
    );
    let (stream, update) = ledger.remove_stream(1, Settlement::Dropped).unwrap();
    assert_eq!(stream.listen_stream_id, 2);
    assert_eq!(update, CounterUpdate::DroppedActiveStreams(1));
    assert_eq!(ledger.active_streams(), 0);
}

#[test]
fn listen_close_before_connect_ready_releases_active_stream() {
    let mut ledger = TcpForwardLedger::new();
    let _ = ledger.begin_accept(2, 8);
    let _ = ledger.finish_accept(true);
    assert_eq!(ledger.stream_ready(1), Some(false));
    let (connect, update) = ledger.close_listen(2).unwrap();
    assert_eq!(connect, 1);
    assert_eq!(update, CounterUpdate::ReleasedActiveStream);
    assert_eq!(ledger.active_streams(), 0);
    assert!(ledger.close_listen(2).is_none());
}

#[test]
fn accepts_beyond_the_active_limit_are_refused() {
    let mut ledger = TcpForwardLedger::new();
    let _ = ledger.begin_accept(2, 1);
    let _ = ledger.finish_accept(true);
    let (start, updates) = ledger.begin_accept(4, 1);
    assert_eq!(start, AcceptStart::Refused);
    assert_eq!(updates, vec![CounterUpdate::DroppedStream]);
    assert_eq!(ledger.active_streams(), 1);
}

#[test]
fn connect_tunnel_loss_drops_every_active_stream() {
    let mut ledger = TcpForwardLedger::new();
    for listen in [2u32, 4, 6] {
        let _ = ledger.begin_accept(listen, 8);
        let _ = ledger.finish_accept(true);
    }
    assert_eq!(ledger.active_streams(), 3);
    let (streams, update) = ledger.drop_all();
    assert_eq!(streams.len(), 3);
    assert_eq!(update, Some(CounterUpdate::DroppedActiveStreams(3)));
    assert_eq!(ledger.active_streams(), 0);
    assert_eq!(ledger.drop_all().1, None);
}

#[test]
fn fully_drained_tcp_pair_closes_both_daemon_streams() {
    let mut ledger = TcpForwardLedger::new();
    let _ = ledger.begin_accept(2, 8);
    let _ = ledger.finish_accept(true);
    assert!(ledger.mark_ready_and_take_pending(1).unwrap().is_empty());
    assert!(ledger.mark_listen_eof(1));
    assert_eq!(ledger.mark_connect_eof(1), Some(2));
    assert_eq!(ledger.is_fully_eof(1), Some(true));
    let (stream, update) = ledger.remove_stream(1, Settlement::Release).unwrap();
    assert_eq!(stream.listen_stream_id, 2);
    assert_eq!(update, CounterUpdate::ReleasedActiveStream);
    assert_eq!(ledger.listen_for_connect(1), None);
}

#[test]
fn losing_the_connect_tunnel_returns_each_stream_once_without_held_bytes() {
    let mut state = TcpForwardState::new();
    state.record_tcp_stream_pair(2, 1);
    state.record_tcp_stream_pair(4, 3);
    state.record_tcp_stream_pair(6, 5);
    assert_eq!(state.try_queue_pending_frame(3, data_frame(3, 5), 100, 150), Some(PendingQueueResult::Queued));
    let streams = state.take_all_streams();
    let mut pairs: Vec<(u32, u32)> = streams.iter().map(|s| (s.connect_stream_id, s.listen_stream_id)).collect();
    pairs.sort();
    assert_eq!(pairs, vec![(1, 2), (3, 4), (5, 6)]);
    assert!(streams.iter().all(|s| s.pending_bytes == 0));
    let held: usize = streams.iter().map(|s| s.pending_frames.len()).sum();
    assert_eq!(held, 1);
    assert_eq!(state.connect_for_listen(4), None);
}
