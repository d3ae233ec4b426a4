use remote_exec_broker::reverse::{check_registration, LaneInsertOutcome, LanePool, LaneTake, ReverseRegistration};
use remote_exec_broker::daemon_client::connection::{recovery_message, DaemonConnectionState, RecoveryDecision, TimeoutRecoveryOutcome};
use remote_exec_broker::session_store::SessionStore;

fn take_instance(pool: &mut LanePool<u32>) -> Option<String> {
    match pool.take() {
        LaneTake::Lane(lane) => Some(lane.daemon_instance_id),
        _ => None,
    }
}

#[test]
fn new_daemon_instance_replaces_queued_lanes() {
    let mut pool: LanePool<u32> = LanePool::new();
    pool.insert(1, "old-instance".to_string()).unwrap();
    pool.insert(2, "old-instance".to_string()).unwrap();
    let outcome = pool.insert(3, "new-instance".to_string()).unwrap();
    match outcome {
        LaneInsertOutcome::Replaced { previous_daemon_instance_id, dropped_lanes } => {
            assert_eq!(previous_daemon_instance_id, "old-instance");
            assert_eq!(dropped_lanes, 2);
        }
        LaneInsertOutcome::Added => panic!("expected a replacement"),
    }

    assert_eq!(take_instance(&mut pool).as_deref(), Some("new-instance"));
}

#[test]
fn retired_daemon_instance_cannot_reclaim_pool() {
    let mut pool: LanePool<u32> = LanePool::new();
    pool.insert(1, "old-instance".to_string()).unwrap();
    pool.insert(2, "new-instance".to_string()).unwrap();

    let err = match pool.insert(3, "old-instance".to_string()) {
        Ok(_) => panic!("retired daemon instance should be rejected"),
        Err(err) => err,
    };
    assert!(err.contains("retired daemon instance"), "unexpected error: {err:#}");
    assert_eq!(take_instance(&mut pool).as_deref(), Some("new-instance"));
}

#[test]
fn connection_reset_drops_queued_and_cancels_checked_out_lanes() {
    let mut pool: LanePool<u32> = LanePool::new();
    pool.insert(1, "instance".to_string()).unwrap();
    pool.insert(2, "instance".to_string()).unwrap();
    let checked_out = match pool.take() {
        LaneTake::Lane(lane) => lane,
        _ => panic!("a lane was parked"),
    };
    assert!(!pool.is_reset(&checked_out));

    assert_eq!(pool.reset_connections(), 1);
    assert!(pool.is_reset(&checked_out));
    assert!(matches!(pool.take(), LaneTake::Empty), "queued lanes should be discarded after reset");
}

#[test]
fn closed_pool_refuses_lanes_and_takers() {
    let mut pool: LanePool<u32> = LanePool::new();
    pool.close();
    assert_eq!(pool.insert(1, "instance".to_string()).unwrap_err(), "reverse lane pool is closed");
    assert!(matches!(pool.take(), LaneTake::Closed));
}

#[test]
fn registration_checks_version_target_identity_and_token() {
    let reg = ReverseRegistration {
        protocol_version: 1,
        target: "builder-a".to_string(),
        daemon_instance_id: "d1".to_string(),
        bearer_token: Some("secret".to_string()),
    };
    let token = Some(Some("secret".to_string()));
    assert!(check_registration(&reg, 1, &token, &None).is_ok());
    assert!(check_registration(&reg, 1, &token, &Some("builder-a".to_string())).is_ok());
    assert_eq!(check_registration(&reg, 2, &token, &None).unwrap_err(), "unsupported reverse protocol version 1");
    assert_eq!(check_registration(&reg, 1, &None, &None).unwrap_err(), "reverse lane registered an unknown target");
    assert_eq!(
        check_registration(&reg, 1, &token, &Some("builder-b".to_string())).unwrap_err(),
        "reverse TLS client certificate identity does not match registered target"
    );
    assert_eq!(
        check_registration(&reg, 1, &Some(None), &None).unwrap_err(),
        "reverse lane authentication failed"
    );
}

#[test]
fn remove_target_instance_preserves_other_target_and_new_instance_sessions() {
    let mut store = SessionStore::new();
    let old_target_session = store.insert(
        "sess-1".to_string(),
        "target-a".to_string(),
        "daemon-session-old".to_string(),
        "daemon-old".to_string(),
        "cmd-old".to_string(),
    );
    let new_target_session = store.insert(
        "sess-2".to_string(),
        "target-a".to_string(),
        "daemon-session-new".to_string(),
        "daemon-new".to_string(),
        "cmd-new".to_string(),
    );
    let other_target_session = store.insert(
        "sess-3".to_string(),
        "target-b".to_string(),
        "daemon-session-other".to_string(),
        "daemon-old".to_string(),
        "cmd-other".to_string(),
    );

    let removed = store.remove_target_instance("target-a", "daemon-old");

    assert_eq!(removed, 1);
    assert!(store.get(&old_target_session.session_id).is_none());
    assert!(store.get(&new_target_session.session_id).is_some());
    assert!(store.get(&other_target_session.session_id).is_some());
}

#[test]
fn sessions_are_found_and_forgotten_by_id() {
    let mut store = SessionStore::new();
    store.insert("s".to_string(), "t".to_string(), "ds".to_string(), "di".to_string(), "cmd".to_string());
    let found = store.get("s").unwrap();
    assert_eq!(found.daemon_session_id, "ds");
    assert_eq!(found.session_command, "cmd");
    store.remove("s");
    assert!(store.get("s").is_none());
    store.remove("s");
}

#[test]
fn reverse_connection_reset_requires_consecutive_timeouts() {
    let mut pool: LanePool<u32> = LanePool::new();
    pool.insert(1, "instance".to_string()).unwrap();
    pool.insert(2, "instance".to_string()).unwrap();
    let checked_out = match pool.take() {
        LaneTake::Lane(lane) => lane,
        _ => panic!("expected a lane"),
    };
    let mut connection = DaemonConnectionState::new(0u32);
    let first = match connection.begin_timeout_recovery(None) {
        RecoveryDecision::Deferred { consecutive_timeouts } => {
            recovery_message(Ok(TimeoutRecoveryOutcome::Deferred { consecutive_timeouts }))
        }
        other => panic!("unexpected {other:?}"),
    };
    assert!(first.contains("connection was retained"));
    assert!(!pool.is_reset(&checked_out));
    let second = match connection.begin_timeout_recovery(None) {
        RecoveryDecision::ResetNeeded { generation } => {
            pool.reset_connections();
            recovery_message(Ok(connection.finish_reset(generation, 1)))
        }
        other => panic!("unexpected {other:?}"),
    };
    assert!(second.contains("connection was reset"));
    assert!(pool.is_reset(&checked_out));
    assert!(matches!(pool.take(), LaneTake::Empty), "queued reverse lanes should be discarded after escalation");
}
