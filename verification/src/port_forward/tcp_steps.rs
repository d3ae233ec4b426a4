//! The TCP forwarding loop's decisions after a tunnel operation: what a
//! failed close or send leads to. The loop performs the operation and hands
//! its result to one of these functions.
use vstd::prelude::*;

use super::frame::FrameType;
use super::tcp_ledger::{Settlement, TcpForwardLedger};
use super::tcp_state::pair_of;
use super::tunnel::{
    classify_connect_send, classify_transport_failure, retryable_cause, ConnectTunnelFrameSend,
    ErrorCause, ForwardLoopControl, TunnelRole,
};

verus! {

pub open spec fn any_retryable(chain: Seq<ErrorCause>) -> bool {
    exists|i: int| 0 <= i < chain.len() && retryable_cause(#[trigger] chain[i])
}

/// `c` is `chain` with a context message `msg` put in front.
pub open spec fn with_context(c: Seq<ErrorCause>, msg: Seq<char>, chain: Seq<ErrorCause>) -> bool {
    &&& c.len() == chain.len() + 1
    &&& c[0] matches ErrorCause::Context(m) && m@ == msg
    &&& c.drop_first() =~= chain
}

pub open spec fn any_backpressure(chain: Seq<ErrorCause>) -> bool {
    exists|i: int| 0 <= i < chain.len() && (#[trigger] chain[i]) is Backpressure
}

/// Why a stream pair is closed from the connect side.
#[derive(Debug, Clone, Copy, PartialEq, Eq, Structural)]
pub enum PairCloseReason {
    /// The connect side reported an error for the stream.
    ConnectError,
    /// The connect tunnel refused a frame for want of budget.
    ConnectPressure,
}

/// How a closed pair gives back its active slot: an error releases it, a
/// refused frame drops the stream.
pub fn pair_close_settlement(reason: PairCloseReason) -> (res: Settlement)
    ensures
        res == match reason {
            PairCloseReason::ConnectError => Settlement::Release,
            PairCloseReason::ConnectPressure => Settlement::Dropped,
        },
{
    match reason {
        PairCloseReason::ConnectError => Settlement::Release,
        PairCloseReason::ConnectPressure => Settlement::Dropped,
    }
}

/// After a connect-side error closed a pair, the result of closing its
/// listen stream: a lost listen transport is left to the listen side's own
/// reads; any other failure ends the forward.
pub fn after_connect_error_listen_close(result: Result<(), Vec<ErrorCause>>) -> (res: Result<(), Vec<ErrorCause>>)
    ensures
        match result {
            Ok(_) => res is Ok,
            Err(chain) => if any_retryable(chain@) {
                res is Ok
            } else {
                res matches Err(c) && with_context(c@, "closing tcp listen stream after connect error"@, chain@)
            },
        },
{
    match result {
        Ok(()) => Ok(()),
        Err(chain) => {
            let ctx = String::from_str("closing tcp listen stream after connect error");
            proof {
                reveal_strlit("closing tcp listen stream after connect error");
            }
            match classify_transport_failure(chain, ctx, TunnelRole::Listen) {
                Ok(_) => Ok(()),
                Err(c) => Err(c),
            }
        },
    }
}

/// After the connect tunnel was lost, the result of closing a listen stream
/// that had no ready pair: the connect side is recovered next, unless the
/// listen close failed.
pub fn after_unpaired_listen_close(result: Result<(), Vec<ErrorCause>>) -> (res: Result<ForwardLoopControl, Vec<ErrorCause>>)
    ensures
        match result {
            Ok(_) => res == Ok::<ForwardLoopControl, Vec<ErrorCause>>(ForwardLoopControl::RecoverTunnel(TunnelRole::Connect)),
            Err(chain) => if any_retryable(chain@) {
                res == Ok::<ForwardLoopControl, Vec<ErrorCause>>(ForwardLoopControl::RecoverTunnel(TunnelRole::Listen))
            } else {
                res matches Err(c) && with_context(c@, "closing tcp listen stream after connect tunnel loss"@, chain@)
            },
        },
{
    match result {
        Ok(()) => Ok(ForwardLoopControl::RecoverTunnel(TunnelRole::Connect)),
        Err(chain) => {
            proof {
                reveal_strlit("closing tcp listen stream after connect tunnel loss");
            }
            classify_transport_failure(
                chain,
                String::from_str("closing tcp listen stream after connect tunnel loss"),
                TunnelRole::Listen,
            )
        },
    }
}

/// What follows closing the connect stream of a fully drained pair.
#[derive(Debug)]
pub enum DrainedCloseStep {
    /// Close the listen stream next; `recover_connect` when the connect
    /// tunnel was found lost.
    CloseListen { recover_connect: bool },
    /// The forward ends with this chain.
    Fail(Vec<ErrorCause>),
}

/// The result of closing a fully drained pair's connect stream: a lost
/// connect transport still closes the listen stream and then recovers the
/// connect side; any other failure ends the forward.
pub fn after_drained_connect_close(result: Result<(), Vec<ErrorCause>>) -> (res: DrainedCloseStep)
    ensures
        match result {
            Ok(_) => res matches DrainedCloseStep::CloseListen { recover_connect } && !recover_connect,
            Err(chain) => if any_retryable(chain@) {
                res matches DrainedCloseStep::CloseListen { recover_connect } && recover_connect
            } else {
                res matches DrainedCloseStep::Fail(c)
                    && with_context(c@, "closing fully drained tcp connect stream"@, chain@)
            },
        },
{
    match result {
        Ok(()) => DrainedCloseStep::CloseListen { recover_connect: false },
        Err(chain) => {
            if super::tunnel::is_retryable_transport_error(&chain) {
                return DrainedCloseStep::CloseListen { recover_connect: true };
            }
            let mut full: Vec<ErrorCause> = Vec::new();
            full.push(ErrorCause::Context(String::from_str("closing fully drained tcp connect stream")));
            let mut rest = chain;
            full.append(&mut rest);
            proof {
                reveal_strlit("closing fully drained tcp connect stream");
                assert(full@.drop_first() =~= chain@);
            }
            DrainedCloseStep::Fail(full)
        },
    }
}

pub open spec fn drained_listen_context(recover_connect: bool) -> Seq<char> {
    if recover_connect {
        "closing fully drained tcp listen stream after connect tunnel loss"@
    } else {
        "closing fully drained tcp listen stream"@
    }
}

/// The result of closing a fully drained pair's listen stream: the loop
/// goes on, or recovers the connect side when its tunnel was lost; a failed
/// listen close recovers the listen side or ends the forward.
pub fn after_drained_listen_close(recover_connect: bool, result: Result<(), Vec<ErrorCause>>) -> (res: Result<Option<ForwardLoopControl>, Vec<ErrorCause>>)
    ensures
        match result {
            Ok(_) => res == Ok::<Option<ForwardLoopControl>, Vec<ErrorCause>>(
                if recover_connect { Some(ForwardLoopControl::RecoverTunnel(TunnelRole::Connect)) } else { None }),
            Err(chain) => if any_retryable(chain@) {
                res == Ok::<Option<ForwardLoopControl>, Vec<ErrorCause>>(Some(ForwardLoopControl::RecoverTunnel(TunnelRole::Listen)))
            } else {
                res matches Err(c) && with_context(c@, drained_listen_context(recover_connect), chain@)
            },
        },
{
    match result {
        Ok(()) => {
            if recover_connect {
                Ok(Some(ForwardLoopControl::RecoverTunnel(TunnelRole::Connect)))
            } else {
                Ok(None)
            }
        },
        Err(chain) => {
            let ctx = if recover_connect {
                proof {
                    reveal_strlit("closing fully drained tcp listen stream after connect tunnel loss");
                }
                String::from_str("closing fully drained tcp listen stream after connect tunnel loss")
            } else {
                proof {
                    reveal_strlit("closing fully drained tcp listen stream");
                }
                String::from_str("closing fully drained tcp listen stream")
            };
            match classify_transport_failure(chain, ctx, TunnelRole::Listen) {
                Ok(control) => Ok(Some(control)),
                Err(c) => Err(c),
            }
        },
    }
}

/// What the loop does after relaying one frame to the connect tunnel, or
/// after sending one queued frame while flushing.
#[derive(Debug)]
pub enum RelayStep {
    /// The frame went out.
    Sent,
    /// Drop the stream pair, counting it as dropped.
    DropPairForPressure,
    /// Close every active listen stream, then recover the connect side.
    RecoverConnect,
    /// The forward ends with this chain.
    Fail(Vec<ErrorCause>),
}

/// The step after relaying a frame on the connect tunnel.
pub fn relay_step(result: Result<(), Vec<ErrorCause>>) -> (res: RelayStep)
    ensures
        match result {
            Ok(_) => res is Sent,
            Err(chain) => if any_backpressure(chain@) {
                res is DropPairForPressure
            } else if any_retryable(chain@) {
                res is RecoverConnect
            } else {
                res matches RelayStep::Fail(c)
                    && with_context(c@, "relaying tcp data to connect tunnel"@, chain@)
            },
        },
{
    proof {
        reveal_strlit("relaying tcp data to connect tunnel");
    }
    match classify_connect_send(result, String::from_str("relaying tcp data to connect tunnel")) {
        ConnectTunnelFrameSend::Sent => RelayStep::Sent,
        ConnectTunnelFrameSend::Backpressure => RelayStep::DropPairForPressure,
        ConnectTunnelFrameSend::Retryable => RelayStep::RecoverConnect,
        ConnectTunnelFrameSend::Failed(c) => RelayStep::Fail(c),
    }
}

/// How flushing a stream's queued frames ended.
#[derive(Debug)]
pub enum FlushOutcome {
    /// Every frame went out; `should_remove` when the stream's entry is to
    /// be removed (a close was sent, or the pair was dropped).
    Sent { should_remove: bool },
    /// Close every active listen stream, then recover the connect side.
    RecoverConnect,
    /// The forward ends with this chain.
    Fail(Vec<ErrorCause>),
}

/// One step of flushing a stream's queued frames, after sending one of
/// them: go on with the next frame, or stop with the outcome. A refused
/// frame drops the pair (and removes the stream's entry); a sent close
/// releases the pair's active slot and marks the entry for removal.
#[derive(Debug)]
pub enum FlushStep {
    /// Send the next frame; `release_active` when the frame sent was a
    /// close, whose pair gives back its active slot now.
    Continue { should_remove: bool, release_active: bool },
    /// Stop flushing.
    Done(FlushOutcome),
}

/// The step after sending one queued frame, `should_remove` saying whether
/// a close was sent before it.
pub fn flush_step(should_remove: bool, frame_is_close: bool, result: Result<(), Vec<ErrorCause>>) -> (res: FlushStep)
    ensures
        match result {
            Ok(_) => res matches FlushStep::Continue { should_remove: r, release_active }
                && r == (should_remove || frame_is_close) && release_active == frame_is_close,
            Err(chain) => if any_backpressure(chain@) {
                res matches FlushStep::Done(FlushOutcome::Sent { should_remove: r }) && r
            } else if any_retryable(chain@) {
                res matches FlushStep::Done(FlushOutcome::RecoverConnect)
            } else {
                res matches FlushStep::Done(FlushOutcome::Fail(c))
                    && with_context(c@, "relaying tcp data to connect tunnel"@, chain@)
            },
        },
{
    match relay_step(result) {
        RelayStep::Sent => FlushStep::Continue {
            should_remove: should_remove || frame_is_close,
            release_active: frame_is_close,
        },
        RelayStep::DropPairForPressure => FlushStep::Done(FlushOutcome::Sent { should_remove: true }),
        RelayStep::RecoverConnect => FlushStep::Done(FlushOutcome::RecoverConnect),
        RelayStep::Fail(c) => FlushStep::Done(FlushOutcome::Fail(c)),
    }
}

/// What the TCP forwarding loop does with a frame read from one of its
/// tunnels.
#[derive(Debug, Clone, Copy, PartialEq, Eq, Structural)]
pub enum TcpEpochAction {
    /// A listen-side connection was accepted: start it with `begin_accept`.
    Accept,
    /// Data on a listen stream whose connect stream is ready: relay it there.
    SendToConnect(u32),
    /// Data on a listen stream whose connect stream is not ready yet: queue
    /// it for that stream.
    QueueForConnect(u32),
    /// End of a listen stream: mark it on connect stream `connect`, relay or
    /// queue the end of stream (as `ready` says), then close the pair if
    /// both directions have ended.
    ListenEof { connect: u32, ready: bool },
    /// A listen stream closed: end its pair with `close_listen`.
    ListenClose,
    /// An error frame on the listener itself: see `listener_error_step`.
    ListenerError,
    /// An error frame on an accepted listen stream: end its pair, releasing
    /// its slot, and close its connect stream.
    ListenStreamError,
    /// A drop report of the listen side: count it.
    ForwardDrop,
    /// The connect stream was opened: mark it ready and flush its queue.
    ConnectReady(u32),
    /// The connect side failed a stream: close its pair.
    ConnectError(u32),
    /// Data on a connect stream: relay it to listen stream `listen`.
    SendToListen(u32),
    /// End of a connect stream paired with listen stream `listen`: mark it,
    /// relay it, then close the pair if both directions have ended.
    ConnectEof { listen: u32 },
    /// A connect stream closed: end its pair and close its listen stream.
    ConnectClose(u32),
    /// Nothing to do.
    Ignore,
}

pub open spec fn connect_of(ledger: TcpForwardLedger, listen_stream_id: u32) -> Option<u32> {
    pair_of(ledger.state().pairs(), listen_stream_id)
}

pub open spec fn ready_of(ledger: TcpForwardLedger, connect_stream_id: u32) -> Option<bool> {
    if ledger.state().streams().contains_key(connect_stream_id) {
        Some(ledger.state().streams()[connect_stream_id].ready)
    } else {
        None
    }
}

pub open spec fn listen_of(ledger: TcpForwardLedger, connect_stream_id: u32) -> Option<u32> {
    if ledger.state().streams().contains_key(connect_stream_id) {
        Some(ledger.state().streams()[connect_stream_id].listen_stream_id)
    } else {
        None
    }
}

/// The action for a frame of type `frame_type` on stream `stream_id`, read
/// from the tunnel of `side`; `listener_stream_id` is the listener's stream
/// on the listen tunnel.
pub open spec fn spec_tcp_epoch_step(
    ledger: TcpForwardLedger,
    side: TunnelRole,
    frame_type: FrameType,
    stream_id: u32,
    listener_stream_id: u32,
) -> TcpEpochAction {
    match side {
        TunnelRole::Listen => match frame_type {
            FrameType::TcpAccept => TcpEpochAction::Accept,
            FrameType::TcpData => match connect_of(ledger, stream_id) {
                Some(c) => match ready_of(ledger, c) {
                    Some(true) => TcpEpochAction::SendToConnect(c),
                    Some(false) => TcpEpochAction::QueueForConnect(c),
                    None => TcpEpochAction::Ignore,
                },
                None => TcpEpochAction::Ignore,
            },
            FrameType::TcpEof => match connect_of(ledger, stream_id) {
                Some(c) => match ready_of(ledger, c) {
                    Some(r) => TcpEpochAction::ListenEof { connect: c, ready: r },
                    None => TcpEpochAction::Ignore,
                },
                None => TcpEpochAction::Ignore,
            },
            FrameType::Close => TcpEpochAction::ListenClose,
            FrameType::Error => if stream_id == listener_stream_id {
                TcpEpochAction::ListenerError
            } else {
                TcpEpochAction::ListenStreamError
            },
            FrameType::ForwardDrop => TcpEpochAction::ForwardDrop,
            _ => TcpEpochAction::Ignore,
        },
        TunnelRole::Connect => match frame_type {
            FrameType::TcpConnectOk => if ready_of(ledger, stream_id) is Some {
                TcpEpochAction::ConnectReady(stream_id)
            } else {
                TcpEpochAction::Ignore
            },
            FrameType::Error => TcpEpochAction::ConnectError(stream_id),
            FrameType::TcpData => match listen_of(ledger, stream_id) {
                Some(l) => TcpEpochAction::SendToListen(l),
                None => TcpEpochAction::Ignore,
            },
            FrameType::TcpEof => match listen_of(ledger, stream_id) {
                Some(l) => TcpEpochAction::ConnectEof { listen: l },
                None => TcpEpochAction::Ignore,
            },
            FrameType::Close => TcpEpochAction::ConnectClose(stream_id),
            _ => TcpEpochAction::Ignore,
        },
    }
}

/// Which step the TCP forwarding loop takes for a frame it read.
pub fn tcp_epoch_step(
    ledger: &TcpForwardLedger,
    side: TunnelRole,
    frame_type: FrameType,
    stream_id: u32,
    listener_stream_id: u32,
) -> (res: TcpEpochAction)
    ensures
        res == spec_tcp_epoch_step(*ledger, side, frame_type, stream_id, listener_stream_id),
{
    match side {
        TunnelRole::Listen => match frame_type {
            FrameType::TcpAccept => TcpEpochAction::Accept,
            FrameType::TcpData => match ledger.connect_for_listen(stream_id) {
                Some(c) => match ledger.stream_ready(c) {
                    Some(true) => TcpEpochAction::SendToConnect(c),
                    Some(false) => TcpEpochAction::QueueForConnect(c),
                    None => TcpEpochAction::Ignore,
                },
                None => TcpEpochAction::Ignore,
            },
            FrameType::TcpEof => match ledger.connect_for_listen(stream_id) {
                Some(c) => match ledger.stream_ready(c) {
                    Some(r) => TcpEpochAction::ListenEof { connect: c, ready: r },
                    None => TcpEpochAction::Ignore,
                },
                None => TcpEpochAction::Ignore,
            },
            FrameType::Close => TcpEpochAction::ListenClose,
            FrameType::Error => if stream_id == listener_stream_id {
                TcpEpochAction::ListenerError
            } else {
                TcpEpochAction::ListenStreamError
            },
            FrameType::ForwardDrop => TcpEpochAction::ForwardDrop,
            _ => TcpEpochAction::Ignore,
        },
        TunnelRole::Connect => match frame_type {
            FrameType::TcpConnectOk => match ledger.stream_ready(stream_id) {
                Some(_) => TcpEpochAction::ConnectReady(stream_id),
                None => TcpEpochAction::Ignore,
            },
            FrameType::Error => TcpEpochAction::ConnectError(stream_id),
            FrameType::TcpData => match ledger.listen_for_connect(stream_id) {
                Some(l) => TcpEpochAction::SendToListen(l),
                None => TcpEpochAction::Ignore,
            },
            FrameType::TcpEof => match ledger.listen_for_connect(stream_id) {
                Some(l) => TcpEpochAction::ConnectEof { listen: l },
                None => TcpEpochAction::Ignore,
            },
            FrameType::Close => TcpEpochAction::ConnectClose(stream_id),
            _ => TcpEpochAction::Ignore,
        },
    }
}

} // verus!
