//! The handshake that opens a port tunnel for a forward: the daemon's reply
//! to the tunnel-open frame, and the checks on what a ready reply carries.
use vstd::prelude::*;

use super::frame::{Frame, FrameType};
use super::limits::TunnelLimitSummary;
use super::loop_steps::context_pair;
use super::tunnel::{decode_tunnel_error_frame, format_terminal_tunnel_error, fallback_error_text, tunnel_error_json, ErrorCause};
use crate::text::{decimal, push_decimal};

verus! {

/// The name of a frame type, as its debug rendering shows it.
pub open spec fn frame_type_text(t: FrameType) -> Seq<char> {
    match t {
        FrameType::Error => "Error"@,
        FrameType::Close => "Close"@,
        FrameType::TunnelOpen => "TunnelOpen"@,
        FrameType::TunnelReady => "TunnelReady"@,
        FrameType::TunnelClose => "TunnelClose"@,
        FrameType::TunnelClosed => "TunnelClosed"@,
        FrameType::TunnelHeartbeat => "TunnelHeartbeat"@,
        FrameType::TunnelHeartbeatAck => "TunnelHeartbeatAck"@,
        FrameType::SessionOpen => "SessionOpen"@,
        FrameType::SessionReady => "SessionReady"@,
        FrameType::SessionResume => "SessionResume"@,
        FrameType::SessionResumed => "SessionResumed"@,
        FrameType::TcpListen => "TcpListen"@,
        FrameType::TcpListenOk => "TcpListenOk"@,
        FrameType::TcpAccept => "TcpAccept"@,
        FrameType::TcpConnect => "TcpConnect"@,
        FrameType::TcpConnectOk => "TcpConnectOk"@,
        FrameType::TcpData => "TcpData"@,
        FrameType::TcpEof => "TcpEof"@,
        FrameType::UdpBind => "UdpBind"@,
        FrameType::UdpBindOk => "UdpBindOk"@,
        FrameType::UdpDatagram => "UdpDatagram"@,
        FrameType::ForwardDrop => "ForwardDrop"@,
        FrameType::Data => "Data"@,
        FrameType::Complete => "Complete"@,
    }
}

/// The name of a frame type in errors.
pub fn frame_type_name(t: FrameType) -> (res: String)
    ensures
        res@ == frame_type_text(t),
{
    match t {
        FrameType::Error => String::from_str("Error"),
        FrameType::Close => String::from_str("Close"),
        FrameType::TunnelOpen => String::from_str("TunnelOpen"),
        FrameType::TunnelReady => String::from_str("TunnelReady"),
        FrameType::TunnelClose => String::from_str("TunnelClose"),
        FrameType::TunnelClosed => String::from_str("TunnelClosed"),
        FrameType::TunnelHeartbeat => String::from_str("TunnelHeartbeat"),
        FrameType::TunnelHeartbeatAck => String::from_str("TunnelHeartbeatAck"),
        FrameType::SessionOpen => String::from_str("SessionOpen"),
        FrameType::SessionReady => String::from_str("SessionReady"),
        FrameType::SessionResume => String::from_str("SessionResume"),
        FrameType::SessionResumed => String::from_str("SessionResumed"),
        FrameType::TcpListen => String::from_str("TcpListen"),
        FrameType::TcpListenOk => String::from_str("TcpListenOk"),
        FrameType::TcpAccept => String::from_str("TcpAccept"),
        FrameType::TcpConnect => String::from_str("TcpConnect"),
        FrameType::TcpConnectOk => String::from_str("TcpConnectOk"),
        FrameType::TcpData => String::from_str("TcpData"),
        FrameType::TcpEof => String::from_str("TcpEof"),
        FrameType::UdpBind => String::from_str("UdpBind"),
        FrameType::UdpBindOk => String::from_str("UdpBindOk"),
        FrameType::UdpDatagram => String::from_str("UdpDatagram"),
        FrameType::ForwardDrop => String::from_str("ForwardDrop"),
        FrameType::Data => String::from_str("Data"),
        FrameType::Complete => String::from_str("Complete"),
    }
}

/// Which tunnel a handshake opens.
#[derive(Debug, Clone, Copy, PartialEq, Eq, Structural)]
pub enum TunnelOpenRole {
    /// The listen side's session tunnel.
    ListenSession,
    /// A connect side's data tunnel.
    Data,
}

/// What the tunnel is called in errors.
pub open spec fn tunnel_noun(role: TunnelOpenRole) -> Seq<char> {
    match role {
        TunnelOpenRole::ListenSession => "port tunnel session"@,
        TunnelOpenRole::Data => "data port tunnel"@,
    }
}

fn tunnel_noun_text(role: TunnelOpenRole) -> (res: String)
    ensures
        res@ == tunnel_noun(role),
{
    match role {
        TunnelOpenRole::ListenSession => String::from_str("port tunnel session"),
        TunnelOpenRole::Data => String::from_str("data port tunnel"),
    }
}

/// The message of a handshake that got no reply in time.
pub open spec fn ready_timeout_text(role: TunnelOpenRole) -> Seq<char> {
    match role {
        TunnelOpenRole::ListenSession => "timed out waiting for port tunnel ready"@,
        TunnelOpenRole::Data => "timed out waiting for data port tunnel ready"@,
    }
}

/// The error of a handshake that got no reply in time.
pub fn ready_timeout_message(role: TunnelOpenRole) -> (res: String)
    ensures
        res@ == ready_timeout_text(role),
{
    match role {
        TunnelOpenRole::ListenSession => String::from_str("timed out waiting for port tunnel ready"),
        TunnelOpenRole::Data => String::from_str("timed out waiting for data port tunnel ready"),
    }
}

/// The context of a failed opening step of `role` on `side`.
pub open spec fn opening_text(role: TunnelOpenRole, side: Seq<char>) -> Seq<char> {
    "opening "@ + tunnel_noun(role) + " on `"@ + side + "`"@
}

/// The terminal text of an error frame on `stream_id` whose JSON meta has
/// the fields `fields`.
pub open spec fn error_frame_text(
    stream_id: u32,
    fields: Option<(Option<Seq<char>>, Option<Seq<char>>, Option<bool>)>,
) -> Seq<char> {
    match fields {
        Some((Some(c), Some(msg), _)) => c + ": "@ + msg,
        Some((None, Some(msg), _)) => msg,
        _ => fallback_error_text(stream_id),
    }
}

/// The failure an error frame stands for, under `context`: the frame's
/// code and message, or the fallback text of a frame without a message.
pub fn tunnel_error_chain(frame: &Frame, context: String) -> (res: Vec<ErrorCause>)
    ensures
        context_pair(res@, context@, error_frame_text(frame.stream_id, tunnel_error_json(frame.meta@))),
{
    let meta = decode_tunnel_error_frame(frame);
    let text = format_terminal_tunnel_error(&meta);
    let mut chain: Vec<ErrorCause> = Vec::new();
    chain.push(ErrorCause::Context(context));
    chain.push(ErrorCause::Context(text));
    chain
}

/// The daemon's reply to a tunnel-open frame.
#[derive(Debug)]
pub enum TunnelOpenReply {
    /// The tunnel is ready; its ready meta is in the frame.
    Ready,
    /// The daemon refused; the opening fails with this chain.
    Failed(Vec<ErrorCause>),
    /// Some other frame; the opening fails with this message.
    Unexpected(String),
}

/// Sorts the reply to the tunnel-open frame sent to `side`: a ready frame
/// or an error frame, both on stream 0; anything else is unexpected.
pub fn classify_tunnel_open_reply(frame: &Frame, role: TunnelOpenRole, side: &str) -> (res: TunnelOpenReply)
    ensures
        if frame.frame_type == FrameType::TunnelReady && frame.stream_id == 0 {
            res is Ready
        } else if frame.frame_type == FrameType::Error && frame.stream_id == 0 {
            res matches TunnelOpenReply::Failed(c)
                && context_pair(c@, opening_text(role, side@), error_frame_text(0, tunnel_error_json(frame.meta@)))
        } else {
            res matches TunnelOpenReply::Unexpected(m) && m@ == "unexpected "@ + tunnel_noun(role) + " response `"@
                + frame_type_text(frame.frame_type) + "` on `"@ + side@ + "`"@
        },
{
    if frame.frame_type == FrameType::TunnelReady && frame.stream_id == 0 {
        return TunnelOpenReply::Ready;
    }
    if frame.frame_type == FrameType::Error && frame.stream_id == 0 {
        let mut ctx = String::from_str("opening ");
        ctx.append(tunnel_noun_text(role).as_str());
        ctx.append(" on `");
        ctx.append(side);
        ctx.append("`");
        return TunnelOpenReply::Failed(tunnel_error_chain(frame, ctx));
    }
    let mut msg = String::from_str("unexpected ");
    msg.append(tunnel_noun_text(role).as_str());
    msg.append(" response `");
    msg.append(frame_type_name(frame.frame_type).as_str());
    msg.append("` on `");
    msg.append(side);
    msg.append("`");
    TunnelOpenReply::Unexpected(msg)
}

/// What a ready reply carries.
#[derive(Debug)]
pub struct TunnelReadyMeta {
    pub generation: u64,
    pub session_id: Option<String>,
    pub resume_timeout_ms: Option<u64>,
    pub limits: TunnelLimitSummary,
}

/// An opened listen session.
#[derive(Debug)]
pub struct ListenSessionReady {
    pub session_id: String,
    pub resume_timeout_ms: u64,
    pub limits: TunnelLimitSummary,
}

/// A listen session's ready reply must name the session and how long it
/// may be resumed.
pub fn listen_session_ready(ready: TunnelReadyMeta) -> (res: Result<ListenSessionReady, String>)
    ensures
        match (ready.session_id, ready.resume_timeout_ms) {
            (None, _) => res matches Err(e) && e@ == "listen tunnel ready did not include session_id"@,
            (Some(_), None) => res matches Err(e) && e@ == "listen tunnel ready did not include resume_timeout_ms"@,
            (Some(s), Some(t)) => res matches Ok(r) && r.session_id == s && r.resume_timeout_ms == t
                && r.limits == ready.limits,
        },
{
    let session_id = match ready.session_id {
        Some(s) => s,
        None => return Err(String::from_str("listen tunnel ready did not include session_id")),
    };
    let resume_timeout_ms = match ready.resume_timeout_ms {
        Some(t) => t,
        None => return Err(String::from_str("listen tunnel ready did not include resume_timeout_ms")),
    };
    Ok(ListenSessionReady { session_id, resume_timeout_ms, limits: ready.limits })
}

/// A data tunnel must be ready at the generation it was opened for.
pub fn check_data_tunnel_generation(ready_generation: u64, generation: u64, side: &str) -> (res: Result<(), String>)
    ensures
        if ready_generation == generation {
            res is Ok
        } else {
            res matches Err(e) && e@ == "data port tunnel on `"@ + side@ + "` returned generation `"@
                + decimal(ready_generation as nat) + "` instead of `"@ + decimal(generation as nat) + "`"@
        },
{
    if ready_generation == generation {
        return Ok(());
    }
    let mut msg = String::from_str("data port tunnel on `");
    msg.append(side);
    msg.append("` returned generation `");
    push_decimal(&mut msg, ready_generation);
    msg.append("` instead of `");
    push_decimal(&mut msg, generation);
    msg.append("`");
    Err(msg)
}

} // verus!
