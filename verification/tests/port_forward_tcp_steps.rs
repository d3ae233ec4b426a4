use remote_exec_broker::port_forward::tcp_ledger::Settlement;
use remote_exec_broker::port_forward::tcp_steps::{
    after_connect_error_listen_close, after_drained_connect_close, after_drained_listen_close,
    after_unpaired_listen_close, flush_step, pair_close_settlement, relay_step, DrainedCloseStep, FlushOutcome,
    FlushStep, PairCloseReason, RelayStep,
};
use remote_exec_broker::port_forward::tunnel::{ErrorCause, ForwardLoopControl, IoErrorKind, TunnelRole};

fn lost() -> Vec<ErrorCause> {
    vec![ErrorCause::Io(IoErrorKind::ConnectionReset, "reset".to_string())]
}

fn denied() -> Vec<ErrorCause> {
    vec![ErrorCause::Io(IoErrorKind::Other, "denied".to_string())]
}

fn context_of(chain: &[ErrorCause]) -> String {
    match &chain[0] {
        ErrorCause::Context(c) => c.clone(),
        _ => panic!("expected a context first"),
    }
}

#[test]
fn pair_close_reason_decides_settlement() {
    assert_eq!(pair_close_settlement(PairCloseReason::ConnectError), Settlement::Release);
    assert_eq!(pair_close_settlement(PairCloseReason::ConnectPressure), Settlement::Dropped);
}

#[test]
fn connect_error_listen_close_ignores_lost_listen_transport() {
    assert!(after_connect_error_listen_close(Ok(())).is_ok());
    assert!(after_connect_error_listen_close(Err(lost())).is_ok());
    let chain = after_connect_error_listen_close(Err(denied())).unwrap_err();
    assert_eq!(chain.len(), 2);
    assert_eq!(context_of(&chain), "closing tcp listen stream after connect error");
}

#[test]
fn unpaired_listen_close_recovers_connect_side() {
    assert_eq!(
        after_unpaired_listen_close(Ok(())).unwrap(),
        ForwardLoopControl::RecoverTunnel(TunnelRole::Connect)
    );
    assert_eq!(
        after_unpaired_listen_close(Err(lost())).unwrap(),
        ForwardLoopControl::RecoverTunnel(TunnelRole::Listen)
    );
    let chain = after_unpaired_listen_close(Err(denied())).unwrap_err();
    assert_eq!(context_of(&chain), "closing tcp listen stream after connect tunnel loss");
}

#[test]
fn drained_pair_close_sequence() {
    assert!(matches!(after_drained_connect_close(Ok(())), DrainedCloseStep::CloseListen { recover_connect: false }));
    assert!(matches!(after_drained_connect_close(Err(lost())), DrainedCloseStep::CloseListen { recover_connect: true }));
    match after_drained_connect_close(Err(denied())) {
        DrainedCloseStep::Fail(chain) => assert_eq!(context_of(&chain), "closing fully drained tcp connect stream"),
        _ => panic!("expected a failure"),
    }
    assert_eq!(after_drained_listen_close(false, Ok(())).unwrap(), None);
    assert_eq!(
        after_drained_listen_close(true, Ok(())).unwrap(),
        Some(ForwardLoopControl::RecoverTunnel(TunnelRole::Connect))
    );
    assert_eq!(
        after_drained_listen_close(true, Err(lost())).unwrap(),
        Some(ForwardLoopControl::RecoverTunnel(TunnelRole::Listen))
    );
    let chain = after_drained_listen_close(true, Err(denied())).unwrap_err();
    assert_eq!(context_of(&chain), "closing fully drained tcp listen stream after connect tunnel loss");
    let chain = after_drained_listen_close(false, Err(denied())).unwrap_err();
    assert_eq!(context_of(&chain), "closing fully drained tcp listen stream");
}

#[test]
fn relay_steps_sort_send_results() {
    assert!(matches!(relay_step(Ok(())), RelayStep::Sent));
    assert!(matches!(relay_step(Err(vec![ErrorCause::Backpressure])), RelayStep::DropPairForPressure));
    assert!(matches!(relay_step(Err(lost())), RelayStep::RecoverConnect));
    match relay_step(Err(denied())) {
        RelayStep::Fail(chain) => assert_eq!(context_of(&chain), "relaying tcp data to connect tunnel"),
        _ => panic!("expected a failure"),
    }
}

#[test]
fn flush_steps_release_on_close_and_stop_on_failure() {
    assert!(matches!(
        flush_step(false, false, Ok(())),
        FlushStep::Continue { should_remove: false, release_active: false }
    ));
    assert!(matches!(
        flush_step(false, true, Ok(())),
        FlushStep::Continue { should_remove: true, release_active: true }
    ));
    assert!(matches!(
        flush_step(false, false, Err(vec![ErrorCause::Backpressure])),
        FlushStep::Done(FlushOutcome::Sent { should_remove: true })
    ));
    assert!(matches!(flush_step(true, false, Err(lost())), FlushStep::Done(FlushOutcome::RecoverConnect)));
    assert!(matches!(flush_step(false, false, Err(denied())), FlushStep::Done(FlushOutcome::Fail(_))));
}
