//! What the broker decides about a port tunnel: the byte budget of its send
//! queue, which failures a forward may recover from, and how a tunnel's
//! error frames read.
use vstd::prelude::*;

use super::frame::{Frame, FrameType};
use crate::daemon_client::error::{code_known, spec_from_wire, DaemonClientError, RpcErrorCode};
use crate::text::{decimal, decimal_string};

verus! {

// ------------------------------------------------------------- queue budget

pub open spec fn backpressure_text() -> Seq<char> {
    "port_forward_backpressure_exceeded: tunnel queue byte budget exceeded"@
}

/// The message of a send refused for want of queue budget.
pub fn backpressure_message() -> (res: String)
    ensures
        res@ == backpressure_text(),
{
    String::from_str("port_forward_backpressure_exceeded: tunnel queue byte budget exceeded")
}

/// Whether a frame costing `charge` bytes fits beside `queued` under `max`.
pub open spec fn fits(queued: nat, max: nat, charge: nat) -> bool {
    queued + charge <= max
}

/// The bytes a tunnel has queued for its writer, bounded by its budget.
pub struct TunnelQueueBudget {
    queued: usize,
    max: usize,
}

impl TunnelQueueBudget {
    pub closed spec fn queued(&self) -> nat {
        self.queued as nat
    }

    pub closed spec fn max(&self) -> nat {
        self.max as nat
    }

    /// Never more queued than the budget allows, at any time.
    #[verifier::type_invariant]
    pub open spec fn wf(self) -> bool {
        self.queued() <= self.max()
    }

    pub fn new(max_queued_bytes: usize) -> (res: Self)
        ensures
            res.queued() == 0,
            res.max() == max_queued_bytes,
    {
        TunnelQueueBudget { queued: 0, max: max_queued_bytes }
    }

    pub fn queued_bytes(&self) -> (res: usize)
        ensures
            res == self.queued(),
    {
        self.queued
    }

    /// Reserves `charge` bytes for a frame about to be queued. A frame that
    /// does not fit is refused (back-pressure) and reserves nothing; one
    /// that costs nothing always fits.
    pub fn reserve(&mut self, charge: usize) -> (admitted: bool)
        ensures
            final(self).max() == old(self).max(),
            admitted == fits(old(self).queued(), old(self).max(), charge as nat),
            final(self).queued() == if admitted { old(self).queued() + charge } else { old(self).queued() as int },
    {
        proof {
            use_type_invariant(&*self);
        }
        if charge > self.max {
            return false;
        }
        if charge == 0 {
            return true;
        }
        match self.queued.checked_add(charge) {
            None => false,
            Some(next) => {
                if next > self.max {
                    false
                } else {
                    self.queued = next;
                    true
                }
            },
        }
    }

    /// Gives back the bytes of a frame that was written or dropped.
    pub fn release(&mut self, charge: usize)
        requires
            charge <= old(self).queued(),
        ensures
            final(self).max() == old(self).max(),
            final(self).queued() == old(self).queued() - charge,
    {
        proof {
            use_type_invariant(&*self);
        }
        self.queued = self.queued - charge;
    }
}

/// Releasing what a reserved frame took leaves the budget as it was,
/// and no sequence of reservations pushes the queue past its budget.
pub proof fn lemma_release_undoes_reserve(queued: nat, max: nat, charge: nat)
    requires
        queued <= max,
        fits(queued, max, charge),
    ensures
        (queued + charge) - charge == queued,
        queued + charge <= max,
{
}

// ---------------------------------------------------------- error chains

/// Kinds of I/O failure the forwarding loops tell apart.
#[derive(Debug, Clone, Copy, PartialEq, Eq, Structural)]
pub enum IoErrorKind {
    UnexpectedEof,
    BrokenPipe,
    ConnectionAborted,
    ConnectionReset,
    NotConnected,
    TimedOut,
    Other,
}

/// One cause in an error's chain, outermost first.
#[derive(Debug)]
pub enum ErrorCause {
    Daemon(DaemonClientError),
    Io(IoErrorKind, String),
    Backpressure,
    Context(String),
}

/// Whether a cause means the tunnel's transport was lost rather than refused.
pub open spec fn retryable_cause(c: ErrorCause) -> bool {
    match c {
        ErrorCause::Daemon(e) => e is Transport || match e {
            DaemonClientError::Rpc { code: Some(k), .. } => code_known(k) == Some(RpcErrorCode::InvalidPortTunnel)
                || code_known(k) == Some(RpcErrorCode::PortTunnelUnavailable),
            _ => false,
        },
        ErrorCause::Io(kind, _) => kind != IoErrorKind::Other,
        _ => false,
    }
}

fn is_retryable_cause(c: &ErrorCause) -> (res: bool)
    ensures
        res == retryable_cause(*c),
{
    match c {
        ErrorCause::Daemon(e) => {
            if e.is_transport() {
                return true;
            }
            match e.rpc_error_code() {
                Some(RpcErrorCode::InvalidPortTunnel) | Some(RpcErrorCode::PortTunnelUnavailable) => true,
                _ => false,
            }
        },
        ErrorCause::Io(kind, _) => *kind != IoErrorKind::Other,
        _ => false,
    }
}

/// Whether any cause in the chain is a lost transport the forward may
/// recover from by reopening its tunnel.
pub fn is_retryable_transport_error(chain: &Vec<ErrorCause>) -> (res: bool)
    ensures
        res == exists|i: int| 0 <= i < chain@.len() && retryable_cause(#[trigger] chain@[i]),
{
    let mut i: usize = 0;
    while i < chain.len()
        invariant
            i <= chain@.len(),
            forall|j: int| 0 <= j < i ==> !retryable_cause(#[trigger] chain@[j]),
        decreases chain@.len() - i,
    {
        if is_retryable_cause(&chain[i]) {
            return true;
        }
        i = i + 1;
    }
    false
}

/// Whether any cause in the chain is a refused send for want of budget.
pub fn is_backpressure_error(chain: &Vec<ErrorCause>) -> (res: bool)
    ensures
        res == exists|i: int| 0 <= i < chain@.len() && (#[trigger] chain@[i]) is Backpressure,
{
    let mut i: usize = 0;
    while i < chain.len()
        invariant
            i <= chain@.len(),
            forall|j: int| 0 <= j < i ==> !((#[trigger] chain@[j]) is Backpressure),
        decreases chain@.len() - i,
    {
        if let ErrorCause::Backpressure = &chain[i] {
            return true;
        }
        i = i + 1;
    }
    false
}

// ------------------------------------------------------------ tunnel errors

/// Which end of a forward a tunnel serves.
#[derive(Debug, Clone, Copy, PartialEq, Eq, Structural)]
pub enum TunnelRole {
    Listen,
    Connect,
}

/// What a tunnel's error frame said.
#[derive(Debug, Clone)]
pub struct TunnelErrorMeta {
    pub code: Option<String>,
    pub message: String,
    pub fatal: bool,
    pub stream_id: u32,
}

pub open spec fn opt_text(o: Option<String>) -> Option<Seq<char>> {
    match o {
        Some(s) => Some(s@),
        None => None,
    }
}

/// The fields `code` (a string), `message` (a string) and `fatal` (a bool)
/// of the JSON value in `meta`, each `None` where absent, of another type,
/// or where the value is no object; `None` as a whole when `meta` is not
/// JSON at all.
pub uninterp spec fn tunnel_error_json(meta: Seq<u8>) -> Option<(Option<Seq<char>>, Option<Seq<char>>, Option<bool>)>;

/// Calls `serde_json::from_slice` into a `serde_json::Value`, then reads
/// `code` and `message` with `Value::get` and `Value::as_str`, and `fatal`
/// with `Value::as_bool`. What it returns is named by `tunnel_error_json`;
/// the JSON grammar is not stated here.
#[verifier::external_body]
fn parse_tunnel_error_json(meta: &[u8]) -> (res: Option<(Option<String>, Option<String>, Option<bool>)>)
    ensures
        match tunnel_error_json(meta@) {
            Some((c, m, f)) => res matches Some((rc, rm, rf)) && opt_text(rc) == c && opt_text(rm) == m && rf == f,
            None => res is None,
        },
{
    let value: serde_json::Value = serde_json::from_slice(meta).ok()?;
    let code = value.get("code").and_then(serde_json::Value::as_str).map(str::to_owned);
    let message = value.get("message").and_then(serde_json::Value::as_str).map(str::to_owned);
    let fatal = value.get("fatal").and_then(serde_json::Value::as_bool);
    Some((code, message, fatal))
}

pub open spec fn fallback_error_text(stream_id: u32) -> Seq<char> {
    "port tunnel returned error on stream "@ + decimal(stream_id as nat)
}

/// The meta an error frame on `stream_id` stands for, given the fields read
/// from its JSON: without a message the frame is a fatal error of its own.
pub open spec fn spec_error_meta_ok(
    m: TunnelErrorMeta,
    stream_id: u32,
    fields: Option<(Option<Seq<char>>, Option<Seq<char>>, Option<bool>)>,
) -> bool {
    &&& m.stream_id == stream_id
    &&& match fields {
        Some((c, Some(msg), f)) => opt_text(m.code) == c && m.message@ == msg
            && m.fatal == (match f { Some(b) => b, None => false }),
        _ => m.code is None && m.message@ == fallback_error_text(stream_id) && m.fatal,
    }
}

/// Builds a tunnel error from the fields of its frame's JSON meta.
pub fn tunnel_error_meta_from_fields(
    stream_id: u32,
    fields: Option<(Option<String>, Option<String>, Option<bool>)>,
) -> (res: TunnelErrorMeta)
    ensures
        spec_error_meta_ok(res, stream_id, match fields {
            Some((c, m, f)) => Some((opt_text(c), opt_text(m), f)),
            None => None,
        }),
{
    match fields {
        Some((code, Some(message), fatal)) => {
            let fatal = match fatal {
                Some(b) => b,
                None => false,
            };
            TunnelErrorMeta { code, message, fatal, stream_id }
        },
        _ => {
            let mut message = String::from_str("port tunnel returned error on stream ");
            let n = decimal_string(stream_id as u64);
            message.append(n.as_str());
            TunnelErrorMeta { code: None, message, fatal: true, stream_id }
        },
    }
}

/// Reads an error frame's meta.
pub fn decode_tunnel_error_frame(frame: &Frame) -> (res: TunnelErrorMeta)
    ensures
        spec_error_meta_ok(res, frame.stream_id, tunnel_error_json(frame.meta@)),
{
    let fields = parse_tunnel_error_json(frame.meta.as_slice());
    tunnel_error_meta_from_fields(frame.stream_id, fields)
}

pub open spec fn terminal_error_text(m: TunnelErrorMeta) -> Seq<char> {
    match m.code {
        Some(c) => c@ + ": "@ + m.message@,
        None => m.message@,
    }
}

/// The error a forward ends with after a fatal tunnel error.
pub fn format_terminal_tunnel_error(meta: &TunnelErrorMeta) -> (res: String)
    ensures
        res@ == terminal_error_text(*meta),
{
    match &meta.code {
        Some(code) => {
            let mut out = code.clone();
            out.append(": ");
            out.append(meta.message.as_str());
            out
        },
        None => meta.message.clone(),
    }
}

/// Whether the daemon refused only for a limit of its own, so the forward
/// may wait and try again.
pub fn is_recoverable_pressure_tunnel_error(meta: &TunnelErrorMeta) -> (res: bool)
    ensures
        res == (meta.code matches Some(c) && spec_from_wire(c@) == Some(RpcErrorCode::PortTunnelLimitExceeded)),
{
    match &meta.code {
        Some(code) => match RpcErrorCode::from_wire_value(code.as_str()) {
            Some(RpcErrorCode::PortTunnelLimitExceeded) => true,
            _ => false,
        },
        None => false,
    }
}

/// What a forwarding loop makes of one read from a tunnel.
#[derive(Debug)]
pub enum ForwardSideEvent {
    Frame(Frame),
    RetryableTransportLoss,
    TerminalTransportError(Vec<ErrorCause>),
    TerminalTunnelError(TunnelErrorMeta),
}

/// Sorts a tunnel read: a fatal error frame ends the forward, other frames
/// pass on, a lost transport may be recovered, any other failure ends it.
pub fn classify_recoverable_tunnel_event(result: Result<Frame, Vec<ErrorCause>>) -> (res: ForwardSideEvent)
    ensures
        match result {
            Ok(f) => if f.frame_type == FrameType::Error && (match tunnel_error_json(f.meta@) {
                Some((_, Some(_), Some(b))) => b,
                Some((_, Some(_), None)) => false,
                _ => true,
            }) {
                res matches ForwardSideEvent::TerminalTunnelError(m) && spec_error_meta_ok(m, f.stream_id, tunnel_error_json(f.meta@))
            } else {
                res == ForwardSideEvent::Frame(f)
            },
            Err(chain) => if exists|i: int| 0 <= i < chain@.len() && retryable_cause(#[trigger] chain@[i]) {
                res is RetryableTransportLoss
            } else {
                res == ForwardSideEvent::TerminalTransportError(chain)
            },
        },
{
    match result {
        Ok(frame) => {
            if frame.frame_type == FrameType::Error {
                let meta = decode_tunnel_error_frame(&frame);
                if meta.fatal {
                    return ForwardSideEvent::TerminalTunnelError(meta);
                }
            }
            ForwardSideEvent::Frame(frame)
        },
        Err(chain) => {
            if is_retryable_transport_error(&chain) {
                ForwardSideEvent::RetryableTransportLoss
            } else {
                ForwardSideEvent::TerminalTransportError(chain)
            }
        },
    }
}

/// What a forwarding loop does after a transport failure it can recover from.
#[derive(Debug, Clone, Copy, PartialEq, Eq, Structural)]
pub enum ForwardLoopControl {
    Cancelled,
    RecoverTunnel(TunnelRole),
}

/// A transport failure with `context` added: recoverable ones reopen the
/// tunnel of `role`, others end the forward with the failure.
pub fn classify_transport_failure(err: Vec<ErrorCause>, context: String, role: TunnelRole) -> (res: Result<ForwardLoopControl, Vec<ErrorCause>>)
    ensures
        if exists|i: int| 0 <= i < err@.len() && retryable_cause(#[trigger] err@[i]) {
            res == Ok::<ForwardLoopControl, Vec<ErrorCause>>(ForwardLoopControl::RecoverTunnel(role))
        } else {
            res matches Err(chain) && chain@ == seq![ErrorCause::Context(context)] + err@
        },
{
    let mut chain: Vec<ErrorCause> = Vec::new();
    chain.push(ErrorCause::Context(context));
    let mut rest = err;
    chain.append(&mut rest);
    let retryable = is_retryable_transport_error(&chain);
    proof {
        let e = seq![ErrorCause::Context(context)] + err@;
        assert(chain@ =~= e);
        if exists|i: int| 0 <= i < err@.len() && retryable_cause(#[trigger] err@[i]) {
            let i = choose|i: int| 0 <= i < err@.len() && retryable_cause(#[trigger] err@[i]);
            assert(chain@[i + 1] == err@[i]);
        }
        if retryable {
            let j = choose|j: int| 0 <= j < chain@.len() && retryable_cause(#[trigger] chain@[j]);
            assert(j > 0);
            assert(err@[j - 1] == chain@[j]);
        }
    }
    if retryable {
        Ok(ForwardLoopControl::RecoverTunnel(role))
    } else {
        Err(chain)
    }
}

/// How a send on the connect tunnel went, for the TCP forwarding loop.
#[derive(Debug)]
pub enum ConnectTunnelFrameSend {
    Sent,
    /// The tunnel's queue budget refused the frame: drop this stream pair.
    Backpressure,
    /// The tunnel's transport was lost: recover the connect side.
    Retryable,
    /// Any other failure ends the forward, with this chain.
    Failed(Vec<ErrorCause>),
}

/// Sorts the result of a connect-tunnel send: refusals for want of budget
/// first, then lost transports; the failure chain gains `context`.
pub fn classify_connect_send(result: Result<(), Vec<ErrorCause>>, context: String) -> (res: ConnectTunnelFrameSend)
    ensures
        match result {
            Ok(_) => res is Sent,
            Err(chain) => if exists|i: int| 0 <= i < chain@.len() && (#[trigger] chain@[i]) is Backpressure {
                res is Backpressure
            } else if exists|i: int| 0 <= i < chain@.len() && retryable_cause(#[trigger] chain@[i]) {
                res is Retryable
            } else {
                res matches ConnectTunnelFrameSend::Failed(c) && c@ == seq![ErrorCause::Context(context)] + chain@
            },
        },
{
    match result {
        Ok(()) => ConnectTunnelFrameSend::Sent,
        Err(chain) => {
            if is_backpressure_error(&chain) {
                return ConnectTunnelFrameSend::Backpressure;
            }
            if is_retryable_transport_error(&chain) {
                return ConnectTunnelFrameSend::Retryable;
            }
            let mut full: Vec<ErrorCause> = Vec::new();
            full.push(ErrorCause::Context(context));
            let mut rest = chain;
            full.append(&mut rest);
            proof {
                assert(full@ =~= seq![ErrorCause::Context(context)] + chain@);
            }
            ConnectTunnelFrameSend::Failed(full)
        },
    }
}

} // verus!
