use remote_exec_broker::port_forward::entry::{
    ForwardPortEntry, ForwardPortPhase, ForwardPortProtocol, ForwardPortSideHealth, ForwardPortSideRole,
    ForwardPortStatus,
};
use remote_exec_broker::port_forward::limits::ForwardPortLimitSummary;
use remote_exec_broker::port_forward::store::{
    CounterUpdate, PortForwardFilter, PortForwardRecord, PortForwardStore,
};

fn filter_one(forward_id: &str) -> PortForwardFilter {
    PortForwardFilter { listen_side: None, connect_side: None, forward_ids: vec![forward_id.to_string()] }
}

fn test_record(forward_id: &str) -> PortForwardRecord<()> {
    PortForwardRecord {
        entry: ForwardPortEntry::new_open(
            forward_id.to_string(),
            "local".to_string(),
            "127.0.0.1:10000".to_string(),
            "builder-a".to_string(),
            "127.0.0.1:10001".to_string(),
            ForwardPortProtocol::Tcp,
            ForwardPortLimitSummary {
                max_active_tcp_streams: 256,
                max_udp_peers: 256,
                max_pending_tcp_bytes_per_stream: 256 * 1024,
                max_pending_tcp_bytes_per_forward: 2 * 1024 * 1024,
                max_tunnel_queued_bytes: 8 * 1024 * 1024,
                max_reconnecting_forwards: 16,
            },
        ),
        close_handle: (),
    }
}

#[test]
fn mark_ready_keeps_forward_reconnecting_until_both_sides_ready() {
    let mut store = PortForwardStore::new();
    store.insert(test_record("fwd_state"));

    store
        .mark_reconnecting("fwd_state", ForwardPortSideRole::Connect, "connect-side tunnel lost".to_string(), 16, 1)
        .unwrap();
    store.mark_ready("fwd_state", ForwardPortSideRole::Listen);

    let reconnecting = store.list(&filter_one("fwd_state")).remove(0);
    assert_eq!(reconnecting.status, ForwardPortStatus::Open);
    assert_eq!(reconnecting.phase, ForwardPortPhase::Reconnecting);
    assert_eq!(reconnecting.listen_state.health, ForwardPortSideHealth::Ready);
    assert_eq!(reconnecting.connect_state.health, ForwardPortSideHealth::Reconnecting);

    store.mark_ready("fwd_state", ForwardPortSideRole::Connect);

    let ready = store.list(&filter_one("fwd_state")).remove(0);
    assert_eq!(ready.status, ForwardPortStatus::Open);
    assert_eq!(ready.phase, ForwardPortPhase::Ready);
    assert_eq!(ready.listen_state.health, ForwardPortSideHealth::Ready);
    assert_eq!(ready.connect_state.health, ForwardPortSideHealth::Ready);
}

#[test]
fn mark_connect_reopening_after_listen_recovery_is_atomic() {
    let mut store = PortForwardStore::new();
    store.insert(test_record("fwd_staged"));

    store
        .mark_reconnecting("fwd_staged", ForwardPortSideRole::Listen, "listen-side tunnel lost".to_string(), 16, 1)
        .unwrap();
    store
        .mark_connect_reopening_after_listen_recovery(
            "fwd_staged",
            "connect-side tunnel reopening after listen-side recovery".to_string(),
            16,
            2,
        )
        .unwrap();

    let reconnecting = store.list(&filter_one("fwd_staged")).remove(0);
    assert_eq!(reconnecting.status, ForwardPortStatus::Open);
    assert_eq!(reconnecting.phase, ForwardPortPhase::Reconnecting);
    assert_eq!(reconnecting.listen_state.health, ForwardPortSideHealth::Ready);
    assert_eq!(reconnecting.listen_state.last_error, None);
    assert_eq!(reconnecting.connect_state.health, ForwardPortSideHealth::Reconnecting);
    assert_eq!(
        reconnecting.connect_state.last_error.as_deref(),
        Some("connect-side tunnel reopening after listen-side recovery")
    );
}

#[test]
fn mark_ready_releases_reconnecting_capacity() {
    let mut store = PortForwardStore::new();
    store.insert(test_record("fwd_ready_first"));
    store.insert(test_record("fwd_ready_second"));

    store
        .mark_reconnecting("fwd_ready_first", ForwardPortSideRole::Connect, "connect-side tunnel lost".to_string(), 1, 1)
        .unwrap();
    store.mark_ready("fwd_ready_first", ForwardPortSideRole::Connect);

    store
        .mark_reconnecting("fwd_ready_second", ForwardPortSideRole::Listen, "listen-side tunnel lost".to_string(), 1, 2)
        .unwrap();

    let second = store.list(&filter_one("fwd_ready_second")).remove(0);
    assert_eq!(second.status, ForwardPortStatus::Open);
    assert_eq!(second.phase, ForwardPortPhase::Reconnecting);
}

#[test]
fn mark_reconnecting_fails_new_forward_when_reconnect_limit_is_reached() {
    let mut store = PortForwardStore::new();
    store.insert(test_record("fwd_first"));
    store.insert(test_record("fwd_second"));

    store
        .mark_reconnecting("fwd_first", ForwardPortSideRole::Connect, "connect-side tunnel lost".to_string(), 1, 1)
        .unwrap();
    let error = store
        .mark_reconnecting("fwd_second", ForwardPortSideRole::Listen, "listen-side tunnel lost".to_string(), 1, 2)
        .unwrap_err();

    assert!(error.contains("port_forward_limit_exceeded"));
    let first = store.list(&filter_one("fwd_first")).remove(0);
    assert_eq!(first.status, ForwardPortStatus::Open);
    assert_eq!(first.phase, ForwardPortPhase::Reconnecting);

    let second = store.list(&filter_one("fwd_second")).remove(0);
    assert_eq!(second.status, ForwardPortStatus::Failed);
    assert_eq!(second.phase, ForwardPortPhase::Failed);
    assert_eq!(
        second.last_error.as_deref(),
        Some("port_forward_limit_exceeded: broker reconnecting forward limit reached")
    );
}

#[test]
fn reconnect_marks_count_attempts_and_time() {
    let mut store = PortForwardStore::new();
    store.insert(test_record("fwd_attempts"));
    store
        .mark_reconnecting("fwd_attempts", ForwardPortSideRole::Listen, "lost".to_string(), 16, 42)
        .unwrap();
    let entry = store.list(&filter_one("fwd_attempts")).remove(0);
    assert_eq!(entry.reconnect_attempts, 1);
    assert_eq!(entry.last_reconnect_at, Some(42));
    assert_eq!(entry.listen_state.last_error.as_deref(), Some("lost"));
}

#[test]
fn list_is_sorted_and_filtered() {
    let mut store = PortForwardStore::new();
    store.insert(test_record("fwd_b"));
    store.insert(test_record("fwd_a"));
    store.insert(test_record("fwd_c"));
    let all = store.list(&PortForwardFilter { listen_side: None, connect_side: None, forward_ids: Vec::new() });
    let ids: Vec<&str> = all.iter().map(|e| e.forward_id.as_str()).collect();
    assert_eq!(ids, vec!["fwd_a", "fwd_b", "fwd_c"]);
    let none = store.list(&PortForwardFilter {
        listen_side: Some("elsewhere".to_string()),
        connect_side: None,
        forward_ids: Vec::new(),
    });
    assert!(none.is_empty());
    assert_eq!(store.open_count(), 3);
    assert_eq!(store.side_pair_count(&"local".to_string(), &"builder-a".to_string()), 3);
}

#[test]
fn close_rejects_unknown_ids_and_keeps_the_store() {
    let mut store = PortForwardStore::new();
    store.insert(test_record("fwd_a"));
    let err = store
        .take_close_candidates(&vec!["fwd_a".to_string(), "fwd_missing".to_string()])
        .err()
        .unwrap();
    assert_eq!(err, "unknown forward_id `fwd_missing`");
    assert_eq!(store.open_count(), 1);
}

#[test]
fn restoring_taken_candidates_gives_back_the_store() {
    let mut store = PortForwardStore::new();
    store.insert(test_record("fwd_a"));
    store.insert(test_record("fwd_b"));
    let taken = store
        .take_close_candidates(&vec!["fwd_b".to_string(), "fwd_b".to_string()])
        .ok()
        .unwrap();
    assert_eq!(taken.len(), 1);
    assert_eq!(store.open_count(), 1);
    store.restore_close_candidates(taken);
    assert_eq!(store.open_count(), 2);
    let all = store.list(&PortForwardFilter { listen_side: None, connect_side: None, forward_ids: Vec::new() });
    assert_eq!(all.len(), 2);
}

#[test]
fn drop_reports_count_at_least_one() {
    let mut store = PortForwardStore::new();
    store.insert(test_record("fwd_drops"));
    store.update_counters("fwd_drops", CounterUpdate::ReportedDroppedStreams(0));
    store.update_counters("fwd_drops", CounterUpdate::ReportedDroppedDatagrams(3));
    let entry = store.list(&filter_one("fwd_drops")).remove(0);
    assert_eq!(entry.dropped_tcp_streams, 1);
    assert_eq!(entry.dropped_udp_datagrams, 3);
}

#[test]
fn mark_failed_and_drain_close_out_forwards() {
    let mut store = PortForwardStore::new();
    store.insert(test_record("fwd_a"));
    store.mark_failed("fwd_a", "tunnel gone".to_string());
    let entry = store.list(&filter_one("fwd_a")).remove(0);
    assert_eq!(entry.status, ForwardPortStatus::Failed);
    assert_eq!(entry.last_error.as_deref(), Some("tunnel gone"));
    let drained = store.drain();
    assert_eq!(drained.len(), 1);
    assert_eq!(store.open_count(), 0);
}

#[test]
fn failed_close_marks_the_forward_failed_and_puts_the_rest_back() {
    let mut store = PortForwardStore::new();
    store.insert(test_record("fwd_a"));
    store.insert(test_record("fwd_b"));
    store.insert(test_record("fwd_c"));
    let taken = store
        .take_close_candidates(&vec!["fwd_a".to_string(), "fwd_b".to_string(), "fwd_c".to_string()])
        .unwrap();
    assert_eq!(store.open_count(), 0);
    let remaining: Vec<_> = taken.into_iter().skip(1).collect();
    let err = store.restore_after_failed_close(remaining, "listen session close timed out");
    assert_eq!(err, "closing port forward `fwd_b`: listen session close timed out");
    assert_eq!(store.open_count(), 2);
    let failed = store.list(&filter_one("fwd_b")).remove(0);
    assert_eq!(failed.status, ForwardPortStatus::Failed);
    assert_eq!(failed.last_error.as_deref(), Some("closing port forward `fwd_b`: listen session close timed out"));
    let untouched = store.list(&filter_one("fwd_c")).remove(0);
    assert_eq!(untouched.status, ForwardPortStatus::Open);
    assert!(store.list(&filter_one("fwd_a")).is_empty());
}
