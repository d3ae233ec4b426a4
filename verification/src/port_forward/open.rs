//! Opening a forward: which frames open its listener, how the steps are
//! named in errors, and which frames answer the listener's opening.
use vstd::prelude::*;

use super::entry::{spec_new_open, ForwardPortEntry, ForwardPortProtocol};
use super::frame::{Frame, FrameType};
use super::limits::{
    effective_forward_limits, spec_effective_forward_limits, spec_limits_from_summary, summary_fits_usize,
    ForwardLimits, ForwardPortLimitSummary, TunnelLimitSummary,
};

verus! {

/// The frames and wording of opening a forward of one protocol.
#[derive(Debug, Clone, Copy, PartialEq, Eq, Structural)]
pub struct ForwardOpenKind {
    pub protocol: ForwardPortProtocol,
    pub listen_frame_type: FrameType,
    pub listen_ok_frame_type: FrameType,
}

pub open spec fn spec_open_kind(protocol: ForwardPortProtocol) -> ForwardOpenKind {
    match protocol {
        ForwardPortProtocol::Tcp => ForwardOpenKind {
            protocol,
            listen_frame_type: FrameType::TcpListen,
            listen_ok_frame_type: FrameType::TcpListenOk,
        },
        ForwardPortProtocol::Udp => ForwardOpenKind {
            protocol,
            listen_frame_type: FrameType::UdpBind,
            listen_ok_frame_type: FrameType::UdpBindOk,
        },
    }
}

pub open spec fn protocol_text(protocol: ForwardPortProtocol) -> Seq<char> {
    match protocol {
        ForwardPortProtocol::Tcp => "tcp"@,
        ForwardPortProtocol::Udp => "udp"@,
    }
}

impl ForwardOpenKind {
    pub fn for_protocol(protocol: ForwardPortProtocol) -> (res: Self)
        ensures
            res == spec_open_kind(protocol),
    {
        match protocol {
            ForwardPortProtocol::Tcp => ForwardOpenKind {
                protocol,
                listen_frame_type: FrameType::TcpListen,
                listen_ok_frame_type: FrameType::TcpListenOk,
            },
            ForwardPortProtocol::Udp => ForwardOpenKind {
                protocol,
                listen_frame_type: FrameType::UdpBind,
                listen_ok_frame_type: FrameType::UdpBindOk,
            },
        }
    }

    /// What this kind of forward's listener is called in errors.
    pub fn noun(&self) -> (res: String)
        ensures
            res@ == protocol_text(self.protocol) + " listener"@,
    {
        let mut out = forward_protocol_name(self.protocol);
        out.append(" listener");
        out
    }
}

/// The protocol's name in errors.
pub fn forward_protocol_name(protocol: ForwardPortProtocol) -> (res: String)
    ensures
        res@ == protocol_text(protocol),
{
    match protocol {
        ForwardPortProtocol::Tcp => String::from_str("tcp"),
        ForwardPortProtocol::Udp => String::from_str("udp"),
    }
}

/// Which side of a forward is being opened.
#[derive(Debug, Clone, Copy, PartialEq, Eq, Structural)]
pub enum ForwardSide {
    Listen,
    Connect,
}

pub open spec fn open_context_text(kind: ForwardOpenKind, side: ForwardSide, target: Seq<char>, endpoint: Seq<char>) -> Seq<char> {
    match side {
        ForwardSide::Listen => "opening "@ + protocol_text(kind.protocol) + " listener"@ + " on `"@ + target + "` at `"@
            + endpoint + "`"@,
        ForwardSide::Connect => "opening "@ + protocol_text(kind.protocol) + " data port tunnel on `"@ + target + "`"@,
    }
}

/// The context an opening step's error carries.
pub fn open_context(kind: ForwardOpenKind, side: ForwardSide, target: &str, endpoint: &str) -> (res: String)
    ensures
        res@ == open_context_text(kind, side, target@, endpoint@),
{
    let mut out = String::from_str("opening ");
    match side {
        ForwardSide::Listen => {
            let noun = kind.noun();
            out.append(noun.as_str());
            out.append(" on `");
            out.append(target);
            out.append("` at `");
            out.append(endpoint);
            out.append("`");
        },
        ForwardSide::Connect => {
            let name = forward_protocol_name(kind.protocol);
            out.append(name.as_str());
            out.append(" data port tunnel on `");
            out.append(target);
            out.append("`");
        },
    }
    out
}

/// What a frame means while the broker waits for a listener to open.
#[derive(Debug, Clone, Copy, PartialEq, Eq, Structural)]
pub enum ListenerWait {
    /// The listener is open; its endpoint is in the frame's meta.
    Ready,
    /// The daemon refused to open it.
    Failed,
    /// Some other frame; keep waiting.
    Ignore,
}

/// Sorts a frame that arrives while waiting for listener `stream_id`.
pub fn classify_listener_frame(frame: &Frame, stream_id: u32, ok_type: FrameType) -> (res: ListenerWait)
    ensures
        res == if frame.frame_type == ok_type && frame.stream_id == stream_id {
            ListenerWait::Ready
        } else if frame.frame_type == FrameType::Error && frame.stream_id == stream_id {
            ListenerWait::Failed
        } else {
            ListenerWait::Ignore
        },
{
    if frame.frame_type == ok_type && frame.stream_id == stream_id {
        ListenerWait::Ready
    } else if frame.frame_type == FrameType::Error && frame.stream_id == stream_id {
        ListenerWait::Failed
    } else {
        ListenerWait::Ignore
    }
}

/// What opening a forward settles once both of its tunnels are ready: the
/// entry the store records and the limits its forwarding loop runs with.
#[derive(Debug)]
pub struct OpenedForwardPlan {
    pub entry: ForwardPortEntry,
    pub limits: ForwardLimits,
}

/// The opened forward's entry, open and ready on both sides at the listen
/// endpoint the daemon answered with, under the tightest of the requested
/// limits and those of both tunnel endpoints; the loop runs with the same.
pub fn plan_opened_forward(
    forward_id: String,
    listen_side: String,
    listen_response: String,
    connect_side: String,
    connect_endpoint: String,
    protocol: ForwardPortProtocol,
    requested: ForwardPortLimitSummary,
    listen_limits: &TunnelLimitSummary,
    connect_limits: &TunnelLimitSummary,
) -> (res: OpenedForwardPlan)
    ensures
        ({
            let l = spec_effective_forward_limits(requested, *listen_limits, *connect_limits);
            &&& res.entry == spec_new_open(forward_id, listen_side, listen_response, connect_side, connect_endpoint, protocol, l)
            &&& summary_fits_usize(l) ==> res.limits == spec_limits_from_summary(l)
            &&& res.limits.max_active_tcp_streams == l.max_active_tcp_streams
            &&& res.limits.max_reconnecting_forwards == l.max_reconnecting_forwards
        }),
{
    let limits = effective_forward_limits(requested, listen_limits, connect_limits);
    let loop_limits = ForwardLimits::from_summary(limits);
    let entry = ForwardPortEntry::new_open(
        forward_id,
        listen_side,
        listen_response,
        connect_side,
        connect_endpoint,
        protocol,
        limits,
    );
    OpenedForwardPlan { entry, limits: loop_limits }
}

/// Where opening a forward's listener stands.
#[derive(Debug)]
pub enum ListenerOpenStep<E> {
    /// The listen frame went out: wait for the listener's answer.
    Wait,
    /// The listener is open at this endpoint.
    Ready(String),
    /// Opening fails with this error; nothing else was opened yet.
    Fail(E),
    /// The listener did not open: abort the connect tunnel already opened
    /// for the forward, then fail with this error.
    AbortConnectThenFail(E),
}

/// The step after sending the listen frame: a failed send fails the opening.
pub fn after_listener_send<E>(result: Result<(), E>) -> (res: ListenerOpenStep<E>)
    ensures
        match result {
            Ok(_) => res is Wait,
            Err(e) => res == ListenerOpenStep::<E>::Fail(e),
        },
{
    match result {
        Ok(()) => ListenerOpenStep::Wait,
        Err(e) => ListenerOpenStep::Fail(e),
    }
}

/// The step after waiting for the listener: its endpoint, or, when it
/// failed or timed out, aborting the opened connect tunnel before failing.
pub fn after_listener_wait<E>(result: Result<String, E>) -> (res: ListenerOpenStep<E>)
    ensures
        match result {
            Ok(ep) => res == ListenerOpenStep::<E>::Ready(ep),
            Err(e) => res == ListenerOpenStep::<E>::AbortConnectThenFail(e),
        },
{
    match result {
        Ok(ep) => ListenerOpenStep::Ready(ep),
        Err(e) => ListenerOpenStep::AbortConnectThenFail(e),
    }
}

} // verus!
