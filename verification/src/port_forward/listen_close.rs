//! Closing a forward's listen session: the listener is closed on the
//! session's tunnel and acknowledged, then the tunnel generation is closed
//! and acknowledged. A lost tunnel before the listener's acknowledgement
//! resumes the session once and closes again; one after it is no failure.
use vstd::prelude::*;

use super::frame::{Frame, FrameType};
use super::tcp_steps::any_retryable;
use super::tunnel::{
    decode_tunnel_error_frame, format_terminal_tunnel_error, is_retryable_transport_error, tunnel_error_json, ErrorCause,
};
use super::tunnel_open::error_frame_text;

verus! {

/// The failure an error frame stands for, with no context around it.
pub open spec fn bare_error_frame(c: Seq<ErrorCause>, frame: Frame) -> bool {
    &&& c.len() == 1
    &&& c[0] matches ErrorCause::Context(m) && m@ == error_frame_text(frame.stream_id, tunnel_error_json(frame.meta@))
}

fn error_frame_failure(frame: &Frame) -> (res: Vec<ErrorCause>)
    ensures
        bare_error_frame(res@, *frame),
{
    let meta = decode_tunnel_error_frame(frame);
    let mut out: Vec<ErrorCause> = Vec::new();
    out.push(ErrorCause::Context(format_terminal_tunnel_error(&meta)));
    out
}

/// What a frame means while waiting for an acknowledgement.
#[derive(Debug)]
pub enum AckWait {
    /// Acknowledged.
    Done,
    /// The daemon answered with an error; closing fails with this chain.
    Failed(Vec<ErrorCause>),
    /// Some other frame; keep waiting.
    Ignore,
}

/// A frame that arrives while waiting for the daemon to acknowledge closing
/// stream `stream_id`: a close of that stream acknowledges it, an error on
/// it fails.
pub fn classify_close_ack(frame: &Frame, stream_id: u32) -> (res: AckWait)
    ensures
        if frame.frame_type == FrameType::Close && frame.stream_id == stream_id {
            res is Done
        } else if frame.frame_type == FrameType::Error && frame.stream_id == stream_id {
            res matches AckWait::Failed(c) && bare_error_frame(c@, *frame)
        } else {
            res is Ignore
        },
{
    if frame.frame_type == FrameType::Close && frame.stream_id == stream_id {
        AckWait::Done
    } else if frame.frame_type == FrameType::Error && frame.stream_id == stream_id {
        AckWait::Failed(error_frame_failure(frame))
    } else {
        AckWait::Ignore
    }
}

/// A frame that arrives while waiting for the daemon to acknowledge closing
/// tunnel generation `generation`: a closed-tunnel frame on stream 0 for
/// that generation acknowledges it (`closed_generation` is the generation
/// its meta names, or why the meta could not be read); an error on stream 0
/// fails.
pub fn classify_tunnel_closed(frame: &Frame, closed_generation: Result<u64, String>, generation: u64) -> (res: Result<AckWait, String>)
    ensures
        if frame.frame_type == FrameType::TunnelClosed && frame.stream_id == 0 {
            match closed_generation {
                Ok(g) => res matches Ok(w) && if g == generation { w is Done } else { w is Ignore },
                Err(e) => res == Err::<AckWait, String>(e),
            }
        } else if frame.frame_type == FrameType::Error && frame.stream_id == 0 {
            res matches Ok(AckWait::Failed(c)) && bare_error_frame(c@, *frame)
        } else {
            res matches Ok(w) && w is Ignore
        },
{
    if frame.frame_type == FrameType::TunnelClosed && frame.stream_id == 0 {
        match closed_generation {
            Ok(g) => if g == generation { Ok(AckWait::Done) } else { Ok(AckWait::Ignore) },
            Err(e) => Err(e),
        }
    } else if frame.frame_type == FrameType::Error && frame.stream_id == 0 {
        Ok(AckWait::Failed(error_frame_failure(frame)))
    } else {
        Ok(AckWait::Ignore)
    }
}

/// How closing a listen session starts.
#[derive(Debug, Clone, Copy, PartialEq, Eq, Structural)]
pub enum ListenCloseStart {
    /// The session retains no tunnel: it is closed already.
    Done,
    /// Close the listener on the session's current tunnel.
    CloseListener,
}

/// Closing a listen session starts by closing its listener on the tunnel
/// the session retains; a session that retains none closes at once, with
/// no reconnect.
pub fn listen_close_start<T>(current_tunnel: &Option<T>) -> (res: ListenCloseStart)
    ensures
        res == if current_tunnel is Some { ListenCloseStart::CloseListener } else { ListenCloseStart::Done },
{
    match current_tunnel {
        Some(_) => ListenCloseStart::CloseListener,
        None => ListenCloseStart::Done,
    }
}

/// What closing the listen session does after closing its listener.
#[derive(Debug)]
pub enum ListenCloseStep {
    /// The listener's close was acknowledged: close the tunnel generation.
    CloseTunnel,
    /// The tunnel was lost first: resume the session at the same
    /// generation, then close the listener and the generation on it.
    ResumeAndCloseAgain,
    /// Closing fails with this chain.
    Fail(Vec<ErrorCause>),
}

/// The step after closing the listener on the session's tunnel.
pub fn after_listener_close(result: Result<(), Vec<ErrorCause>>) -> (res: ListenCloseStep)
    ensures
        match result {
            Ok(_) => res is CloseTunnel,
            Err(chain) => if any_retryable(chain@) {
                res is ResumeAndCloseAgain
            } else {
                res == ListenCloseStep::Fail(chain)
            },
        },
{
    match result {
        Ok(()) => ListenCloseStep::CloseTunnel,
        Err(chain) => {
            if is_retryable_transport_error(&chain) {
                ListenCloseStep::ResumeAndCloseAgain
            } else {
                ListenCloseStep::Fail(chain)
            }
        },
    }
}

/// The result of closing the tunnel generation once the listener's close
/// was acknowledged: a lost tunnel is no failure then.
pub fn after_tunnel_close(result: Result<(), Vec<ErrorCause>>) -> (res: Result<(), Vec<ErrorCause>>)
    ensures
        match result {
            Ok(_) => res is Ok,
            Err(chain) => if any_retryable(chain@) { res is Ok } else { res == Err::<(), Vec<ErrorCause>>(chain) },
        },
{
    match result {
        Ok(()) => Ok(()),
        Err(chain) => {
            if is_retryable_transport_error(&chain) {
                Ok(())
            } else {
                Err(chain)
            }
        },
    }
}

pub open spec fn close_ack_timeout_text() -> Seq<char> {
    "timed out waiting for port forward close acknowledgement"@
}

pub open spec fn tunnel_closed_timeout_text() -> Seq<char> {
    "timed out waiting for port tunnel close acknowledgement"@
}

/// The error of a listener close that was not acknowledged in time.
pub fn close_ack_timeout_message() -> (res: String)
    ensures
        res@ == close_ack_timeout_text(),
{
    String::from_str("timed out waiting for port forward close acknowledgement")
}

/// The error of a tunnel close that was not acknowledged in time.
pub fn tunnel_closed_timeout_message() -> (res: String)
    ensures
        res@ == tunnel_closed_timeout_text(),
{
    String::from_str("timed out waiting for port tunnel close acknowledgement")
}

} // verus!
