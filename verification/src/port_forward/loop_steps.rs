//! Decisions the TCP and UDP forwarding loops share, and those of the UDP
//! loop: what a tunnel read, an error frame on the listener, or a failed
//! datagram relay leads to. The loops perform the I/O and hand its result
//! to these functions.
use vstd::prelude::*;

use super::entry::ForwardPortProtocol;
use super::frame::{Frame, FrameType};
use super::udp_connectors::UdpConnectorMap;
use super::store::CounterUpdate;
use super::tcp_steps::{any_backpressure, any_retryable, with_context};
use super::tunnel::{
    opt_text, classify_transport_failure, format_terminal_tunnel_error, is_backpressure_error,
    is_recoverable_pressure_tunnel_error, terminal_error_text, ErrorCause, ForwardLoopControl,
    ForwardSideEvent, TunnelErrorMeta, TunnelRole,
};
use crate::daemon_client::error::{spec_from_wire, RpcErrorCode};

verus! {

/// A failure made of a message `msg` with the context `ctx` around it.
pub open spec fn context_pair(c: Seq<ErrorCause>, ctx: Seq<char>, msg: Seq<char>) -> bool {
    &&& c.len() == 2
    &&& c[0] matches ErrorCause::Context(a) && a@ == ctx
    &&& c[1] matches ErrorCause::Context(b) && b@ == msg
}

fn context_chain(ctx: String, msg: String) -> (res: Vec<ErrorCause>)
    ensures
        context_pair(res@, ctx@, msg@),
{
    let mut chain: Vec<ErrorCause> = Vec::new();
    chain.push(ErrorCause::Context(ctx));
    chain.push(ErrorCause::Context(msg));
    chain
}

/// What a forwarding loop does with one read from a tunnel.
#[derive(Debug)]
pub enum TunnelFrameOutcome {
    /// Handle this frame.
    Frame(Frame),
    /// The tunnel's transport was lost: run the side's recovery.
    RecoverOnLoss,
    /// The forward ends with this chain.
    Fail(Vec<ErrorCause>),
}

/// The outcome of a sorted tunnel read: a terminal transport error gains
/// `transport_context`, a fatal tunnel error frame is reported under
/// `tunnel_context`.
pub fn tunnel_frame_outcome(event: ForwardSideEvent, transport_context: String, tunnel_context: String) -> (res: TunnelFrameOutcome)
    ensures
        match event {
            ForwardSideEvent::Frame(f) => res == TunnelFrameOutcome::Frame(f),
            ForwardSideEvent::RetryableTransportLoss => res is RecoverOnLoss,
            ForwardSideEvent::TerminalTransportError(chain) => res matches TunnelFrameOutcome::Fail(c)
                && with_context(c@, transport_context@, chain@),
            ForwardSideEvent::TerminalTunnelError(m) => res matches TunnelFrameOutcome::Fail(c)
                && context_pair(c@, tunnel_context@, terminal_error_text(m)),
        },
{
    match event {
        ForwardSideEvent::Frame(f) => TunnelFrameOutcome::Frame(f),
        ForwardSideEvent::RetryableTransportLoss => TunnelFrameOutcome::RecoverOnLoss,
        ForwardSideEvent::TerminalTransportError(chain) => {
            let mut full: Vec<ErrorCause> = Vec::new();
            full.push(ErrorCause::Context(transport_context));
            let mut rest = chain;
            full.append(&mut rest);
            proof {
                assert(full@.drop_first() =~= chain@);
            }
            TunnelFrameOutcome::Fail(full)
        },
        ForwardSideEvent::TerminalTunnelError(m) => {
            TunnelFrameOutcome::Fail(context_chain(tunnel_context, format_terminal_tunnel_error(&m)))
        },
    }
}

pub open spec fn listener_error_context(protocol: ForwardPortProtocol) -> Seq<char> {
    match protocol {
        ForwardPortProtocol::Tcp => "listen-side tcp tunnel error"@,
        ForwardPortProtocol::Udp => "listen-side udp tunnel error"@,
    }
}

/// An error frame on the listener stream: a refusal for a limit of the
/// daemon's counts one dropped stream (TCP) or datagram (UDP) and the
/// forward goes on; any other error ends it.
pub fn listener_error_step(meta: &TunnelErrorMeta, protocol: ForwardPortProtocol) -> (res: Result<CounterUpdate, Vec<ErrorCause>>)
    ensures
        if meta.code matches Some(c) && spec_from_wire(c@) == Some(RpcErrorCode::PortTunnelLimitExceeded) {
            res == Ok::<CounterUpdate, Vec<ErrorCause>>(match protocol {
                ForwardPortProtocol::Tcp => CounterUpdate::DroppedStream,
                ForwardPortProtocol::Udp => CounterUpdate::DroppedDatagram,
            })
        } else {
            res matches Err(c) && context_pair(c@, listener_error_context(protocol), terminal_error_text(*meta))
        },
{
    if is_recoverable_pressure_tunnel_error(meta) {
        return match protocol {
            ForwardPortProtocol::Tcp => Ok(CounterUpdate::DroppedStream),
            ForwardPortProtocol::Udp => Ok(CounterUpdate::DroppedDatagram),
        };
    }
    let ctx = match protocol {
        ForwardPortProtocol::Tcp => String::from_str("listen-side tcp tunnel error"),
        ForwardPortProtocol::Udp => String::from_str("listen-side udp tunnel error"),
    };
    Err(context_chain(ctx, format_terminal_tunnel_error(meta)))
}

/// Why a listen-side datagram got no connector stream.
#[derive(Debug)]
pub enum ConnectorFailure {
    /// The forward already serves its limit of peers.
    LimitExceeded,
    /// The tunnel generation has run out of stream ids.
    StreamIdsExhausted,
    /// Sending the connector's bind frame failed with this chain.
    BindSendFailed(Vec<ErrorCause>),
}

/// The step after a datagram got no connector: the datagram is counted as
/// dropped in every case; a peer limit is nothing more, a failure to open
/// the connector recovers the connect side or ends the forward.
pub fn after_connector_failure(failure: ConnectorFailure) -> (res: Result<Option<ForwardLoopControl>, Vec<ErrorCause>>)
    ensures
        match failure {
            ConnectorFailure::LimitExceeded => res == Ok::<Option<ForwardLoopControl>, Vec<ErrorCause>>(None),
            ConnectorFailure::StreamIdsExhausted => res matches Err(c)
                && context_pair(c@, "opening udp connector stream"@, "port tunnel stream id generation exhausted"@),
            ConnectorFailure::BindSendFailed(chain) => if any_retryable(chain@) {
                res == Ok::<Option<ForwardLoopControl>, Vec<ErrorCause>>(Some(ForwardLoopControl::RecoverTunnel(TunnelRole::Connect)))
            } else {
                res matches Err(c) && with_context(c@, "opening udp connector stream"@, chain@)
            },
        },
{
    proof {
        reveal_strlit("opening udp connector stream");
        reveal_strlit("port tunnel stream id generation exhausted");
    }
    match failure {
        ConnectorFailure::LimitExceeded => Ok(None),
        ConnectorFailure::StreamIdsExhausted => Err(context_chain(
            String::from_str("opening udp connector stream"),
            String::from_str("port tunnel stream id generation exhausted"),
        )),
        ConnectorFailure::BindSendFailed(chain) => {
            match classify_transport_failure(chain, String::from_str("opening udp connector stream"), TunnelRole::Connect) {
                Ok(control) => Ok(Some(control)),
                Err(c) => {
                    proof {
                        assert(c@.drop_first() =~= chain@);
                    }
                    Err(c)
                },
            }
        },
    }
}

/// The step after relaying a listen-side datagram on the connect tunnel: a
/// failed relay counts the datagram as dropped (`.0`); a refusal for want
/// of budget is nothing more, a lost transport recovers the connect side,
/// anything else ends the forward.
pub fn after_listen_datagram_relay(result: Result<(), Vec<ErrorCause>>) -> (res: (bool, Result<Option<ForwardLoopControl>, Vec<ErrorCause>>))
    ensures
        res.0 == (result is Err),
        match result {
            Ok(_) => res.1 == Ok::<Option<ForwardLoopControl>, Vec<ErrorCause>>(None),
            Err(chain) => if any_backpressure(chain@) {
                res.1 == Ok::<Option<ForwardLoopControl>, Vec<ErrorCause>>(None)
            } else if any_retryable(chain@) {
                res.1 == Ok::<Option<ForwardLoopControl>, Vec<ErrorCause>>(Some(ForwardLoopControl::RecoverTunnel(TunnelRole::Connect)))
            } else {
                res.1 matches Err(c) && with_context(c@, "relaying udp datagram to connect tunnel"@, chain@)
            },
        },
{
    match result {
        Ok(()) => (false, Ok(None)),
        Err(chain) => {
            if is_backpressure_error(&chain) {
                return (true, Ok(None));
            }
            proof {
                reveal_strlit("relaying udp datagram to connect tunnel");
            }
            match classify_transport_failure(chain, String::from_str("relaying udp datagram to connect tunnel"), TunnelRole::Connect) {
                Ok(control) => (true, Ok(Some(control))),
                Err(c) => {
                    proof {
                        assert(c@.drop_first() =~= chain@);
                    }
                    (true, Err(c))
                },
            }
        },
    }
}

/// The step after relaying a connect-side datagram back on the listen
/// tunnel: a lost transport recovers the listen side, anything else ends
/// the forward.
pub fn after_connect_datagram_relay(result: Result<(), Vec<ErrorCause>>) -> (res: Result<Option<ForwardLoopControl>, Vec<ErrorCause>>)
    ensures
        match result {
            Ok(_) => res == Ok::<Option<ForwardLoopControl>, Vec<ErrorCause>>(None),
            Err(chain) => if any_retryable(chain@) {
                res == Ok::<Option<ForwardLoopControl>, Vec<ErrorCause>>(Some(ForwardLoopControl::RecoverTunnel(TunnelRole::Listen)))
            } else {
                res matches Err(c) && with_context(c@, "relaying udp datagram to listen tunnel"@, chain@)
            },
        },
{
    match result {
        Ok(()) => Ok(None),
        Err(chain) => {
            proof {
                reveal_strlit("relaying udp datagram to listen tunnel");
            }
            match classify_transport_failure(chain, String::from_str("relaying udp datagram to listen tunnel"), TunnelRole::Listen) {
                Ok(control) => Ok(Some(control)),
                Err(c) => {
                    proof {
                        assert(c@.drop_first() =~= chain@);
                    }
                    Err(c)
                },
            }
        },
    }
}

// ------------------------------------------------------------ drop reports

/// The `kind` (a string) and `count` (an unsigned 64-bit number) fields of
/// the JSON value in a drop report's meta, each `None` where absent or of
/// another type; `None` as a whole when the meta is not JSON.
pub uninterp spec fn forward_drop_fields(meta: Seq<u8>) -> Option<(Option<Seq<char>>, Option<u64>)>;

/// Calls `serde_json::from_slice` into a `serde_json::Value`, then reads
/// `kind` with `Value::get` and `Value::as_str`, and `count` with
/// `Value::as_u64`. What it returns is named by `forward_drop_fields`; the
/// JSON grammar is not stated here.
#[verifier::external_body]
fn decode_forward_drop_fields(meta: &[u8]) -> (res: Option<(Option<String>, Option<u64>)>)
    ensures
        match forward_drop_fields(meta@) {
            Some((k, c)) => res matches Some((rk, rc)) && opt_text(rk) == k && rc == c,
            None => res is None,
        },
{
    let value: serde_json::Value = serde_json::from_slice(meta).ok()?;
    let kind = value.get("kind").and_then(serde_json::Value::as_str).map(str::to_owned);
    let count = value.get("count").and_then(serde_json::Value::as_u64);
    Some((kind, count))
}

pub open spec fn invalid_drop_report_text() -> Seq<char> {
    "invalid forward drop report"@
}

/// The counter update a drop report asks for, given the fields read from
/// its meta: dropped TCP streams or dropped UDP datagrams, by its kind.
pub open spec fn spec_drop_update(fields: Option<(Option<Seq<char>>, Option<u64>)>) -> Result<CounterUpdate, Seq<char>> {
    match fields {
        Some((Some(k), Some(n))) => if k == "tcp_stream"@ {
            Ok(CounterUpdate::ReportedDroppedStreams(n))
        } else if k == "udp_datagram"@ {
            Ok(CounterUpdate::ReportedDroppedDatagrams(n))
        } else {
            Err(invalid_drop_report_text())
        },
        _ => Err(invalid_drop_report_text()),
    }
}

/// The counter update of a drop report whose meta has the fields `fields`.
pub fn forward_drop_update_from(fields: Option<(Option<String>, Option<u64>)>) -> (res: Result<CounterUpdate, String>)
    ensures
        match spec_drop_update(match fields {
            Some((k, c)) => Some((opt_text(k), c)),
            None => None,
        }) {
            Ok(u) => res == Ok::<CounterUpdate, String>(u),
            Err(m) => res matches Err(e) && e@ == m,
        },
{
    match fields {
        Some((Some(k), Some(n))) => {
            if crate::text::str_eq(k.as_str(), "tcp_stream") {
                Ok(CounterUpdate::ReportedDroppedStreams(n))
            } else if crate::text::str_eq(k.as_str(), "udp_datagram") {
                Ok(CounterUpdate::ReportedDroppedDatagrams(n))
            } else {
                Err(String::from_str("invalid forward drop report"))
            }
        },
        _ => Err(String::from_str("invalid forward drop report")),
    }
}

/// The counter update a drop report frame asks for; a report that cannot
/// be read fails the forward.
pub fn forward_drop_update(meta: &[u8]) -> (res: Result<CounterUpdate, String>)
    ensures
        match spec_drop_update(forward_drop_fields(meta@)) {
            Ok(u) => res == Ok::<CounterUpdate, String>(u),
            Err(m) => res matches Err(e) && e@ == m,
        },
{
    forward_drop_update_from(decode_forward_drop_fields(meta))
}

// ------------------------------------------------------------ UDP dispatch

/// What the UDP forwarding loop does with a frame from the listen tunnel.
#[derive(Debug, Clone, Copy, PartialEq, Eq, Structural)]
pub enum UdpListenAction {
    /// A peer's datagram: find or open its connector and relay it.
    Relay,
    /// The listener closed: the forward ends quietly.
    Cancelled,
    /// An error on the listener: see `listener_error_step` (a pressure
    /// refusal counts one dropped datagram, anything else ends the forward).
    ListenerError,
    /// A drop report: count it (`forward_drop_update`).
    ForwardDrop,
    /// Nothing to do.
    Ignore,
}

/// The UDP loop's action for a frame of type `frame_type` on stream
/// `stream_id` of the listen tunnel, whose listener is `listener_stream_id`.
pub fn udp_listen_frame_step(frame_type: FrameType, stream_id: u32, listener_stream_id: u32) -> (res: UdpListenAction)
    ensures
        res == match frame_type {
            FrameType::UdpDatagram => UdpListenAction::Relay,
            FrameType::Close => UdpListenAction::Cancelled,
            FrameType::Error => if stream_id == listener_stream_id {
                UdpListenAction::ListenerError
            } else {
                UdpListenAction::Ignore
            },
            FrameType::ForwardDrop => UdpListenAction::ForwardDrop,
            _ => UdpListenAction::Ignore,
        },
{
    match frame_type {
        FrameType::UdpDatagram => UdpListenAction::Relay,
        FrameType::Close => UdpListenAction::Cancelled,
        FrameType::Error => if stream_id == listener_stream_id {
            UdpListenAction::ListenerError
        } else {
            UdpListenAction::Ignore
        },
        FrameType::ForwardDrop => UdpListenAction::ForwardDrop,
        _ => UdpListenAction::Ignore,
    }
}

/// What the UDP forwarding loop does with a frame from the connect tunnel.
#[derive(Debug)]
pub enum UdpConnectAction {
    /// A connector failed: count one dropped datagram and forget the
    /// connector of this stream.
    DropAndRemove(u32),
    /// A reply to a peer: refresh its connector and relay it to this peer
    /// on the listen tunnel.
    RelayToPeer(String),
    /// A connector closed: forget the connector of this stream.
    Remove(u32),
    /// Nothing to do (bind acknowledgements, replies on unknown streams, and
    /// the connect side's drop reports, which drop accounting, driven by the
    /// listen side, does not count).
    Ignore,
}

/// The UDP loop's action for a frame of type `frame_type` on stream
/// `stream_id` of the connect tunnel.
pub fn udp_connect_frame_step(connectors: &UdpConnectorMap, frame_type: FrameType, stream_id: u32) -> (res: UdpConnectAction)
    ensures
        match frame_type {
            FrameType::Error => res matches UdpConnectAction::DropAndRemove(id) && id == stream_id,
            FrameType::UdpDatagram => if connectors.peers().contains_key(stream_id) {
                res matches UdpConnectAction::RelayToPeer(p) && p@ == connectors.peers()[stream_id]
            } else {
                res is Ignore
            },
            FrameType::Close => res matches UdpConnectAction::Remove(id) && id == stream_id,
            _ => res is Ignore,
        },
{
    match frame_type {
        FrameType::Error => UdpConnectAction::DropAndRemove(stream_id),
        FrameType::UdpDatagram => match connectors.peer_for_stream_id(stream_id) {
            Some(p) => UdpConnectAction::RelayToPeer(p),
            None => UdpConnectAction::Ignore,
        },
        FrameType::Close => UdpConnectAction::Remove(stream_id),
        _ => UdpConnectAction::Ignore,
    }
}

} // verus!
