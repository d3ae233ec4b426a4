//! The port tunnel's liveness protocol and its reader. The broker sends a
//! heartbeat carrying a nonce at each interval and waits for the ack that
//! echoes it; the reader acks the daemon's heartbeats itself, records the
//! nonces of acks and hands every other frame on.
use vstd::prelude::*;

use super::frame::{Frame, FrameType};
use super::tunnel::IoErrorKind;

verus! {

// ------------------------------------------------------------ heartbeat meta

/// The ASCII bytes of the decimal rendering of `n`.
pub open spec fn decimal_bytes(n: nat) -> Seq<u8>
    decreases n,
{
    if n < 10 {
        seq![(48 + n) as u8]
    } else {
        decimal_bytes(n / 10).push((48 + n % 10) as u8)
    }
}

/// Appends the decimal rendering of `n`, as ASCII bytes, to `out`.
fn push_decimal_bytes(out: &mut Vec<u8>, n: u64)
    ensures
        final(out)@ == old(out)@ + decimal_bytes(n as nat),
    decreases n,
{
    if n >= 10 {
        push_decimal_bytes(out, n / 10);
    }
    let d = (n % 10) as u8;
    out.push(48u8 + d);
    assert(decimal_bytes(n as nat) == if n < 10 {
        seq![(48 + n) as u8]
    } else {
        decimal_bytes((n / 10) as nat).push((48 + n % 10) as u8)
    });
    assert(final(out)@ =~= old(out)@ + decimal_bytes(n as nat));
}

/// The JSON meta of a heartbeat with `nonce`: `{"nonce":<nonce>}`.
pub open spec fn heartbeat_meta(nonce: u64) -> Seq<u8> {
    seq![123u8, 34u8, 110u8, 111u8, 110u8, 99u8, 101u8, 34u8, 58u8] + decimal_bytes(nonce as nat) + seq![125u8]
}

/// The heartbeat frame the broker sends with `nonce`, on stream 0.
pub fn heartbeat_frame(nonce: u64) -> (res: Frame)
    ensures
        res.frame_type == FrameType::TunnelHeartbeat,
        res.flags == 0,
        res.stream_id == 0,
        res.meta@ == heartbeat_meta(nonce),
        res.data@.len() == 0,
{
    let mut meta: Vec<u8> = Vec::new();
    meta.push(123u8);
    meta.push(34u8);
    meta.push(110u8);
    meta.push(111u8);
    meta.push(110u8);
    meta.push(99u8);
    meta.push(101u8);
    meta.push(34u8);
    meta.push(58u8);
    push_decimal_bytes(&mut meta, nonce);
    meta.push(125u8);
    assert(meta@ =~= heartbeat_meta(nonce));
    Frame { frame_type: FrameType::TunnelHeartbeat, flags: 0, stream_id: 0, meta, data: Vec::new() }
}

/// The `nonce` field (an unsigned 64-bit number) of the JSON value in a
/// heartbeat's meta; `None` where the meta is no JSON, no object, or has no
/// such field.
pub uninterp spec fn heartbeat_nonce(meta: Seq<u8>) -> Option<u64>;

/// Calls `serde_json::from_slice` into a `serde_json::Value`, then reads
/// `nonce` with `Value::get` and `Value::as_u64`. What it returns is named
/// by `heartbeat_nonce`; the JSON grammar is not stated here.
#[verifier::external_body]
fn decode_heartbeat_nonce(meta: &[u8]) -> (res: Option<u64>)
    ensures
        res == heartbeat_nonce(meta@),
{
    let value: serde_json::Value = serde_json::from_slice(meta).ok()?;
    value.get("nonce").and_then(serde_json::Value::as_u64)
}

// ------------------------------------------------------------------- reader

/// What the tunnel reader does with a frame it read.
#[derive(Debug)]
pub enum ReaderStep {
    /// An ack of the broker's heartbeat `nonce`: record it for the
    /// heartbeat loop.
    RecordAck(u64),
    /// An ack whose meta names no nonce: nothing to record.
    SkipAck,
    /// A heartbeat of the daemon: queue this ack, without waiting; a full
    /// queue drops it (see `ack_queue_step`).
    QueueAck(Frame),
    /// Any other frame: hand it to the tunnel's user.
    Deliver(Frame),
}

/// The reader's step for `frame`, `ack_nonce` being the nonce its meta
/// names (read only for an ack).
pub fn reader_step_for(frame: Frame, ack_nonce: Option<u64>) -> (res: ReaderStep)
    ensures
        if frame.frame_type == FrameType::TunnelHeartbeatAck {
            match ack_nonce {
                Some(n) => res == ReaderStep::RecordAck(n),
                None => res is SkipAck,
            }
        } else if frame.frame_type == FrameType::TunnelHeartbeat {
            res matches ReaderStep::QueueAck(ack) && ack.frame_type == FrameType::TunnelHeartbeatAck && ack.flags == 0
                && ack.stream_id == 0 && ack.meta@ == frame.meta@ && ack.data@.len() == 0
        } else {
            res == ReaderStep::Deliver(frame)
        },
{
    if frame.frame_type == FrameType::TunnelHeartbeatAck {
        match ack_nonce {
            Some(n) => ReaderStep::RecordAck(n),
            None => ReaderStep::SkipAck,
        }
    } else if frame.frame_type == FrameType::TunnelHeartbeat {
        ReaderStep::QueueAck(Frame {
            frame_type: FrameType::TunnelHeartbeatAck,
            flags: 0,
            stream_id: 0,
            meta: frame.meta,
            data: Vec::new(),
        })
    } else {
        ReaderStep::Deliver(frame)
    }
}

/// The reader's step for a frame it read; an ack's nonce is read from its
/// JSON meta.
pub fn reader_frame_step(frame: Frame) -> (res: ReaderStep)
    ensures
        if frame.frame_type == FrameType::TunnelHeartbeatAck {
            match heartbeat_nonce(frame.meta@) {
                Some(n) => res == ReaderStep::RecordAck(n),
                None => res is SkipAck,
            }
        } else if frame.frame_type == FrameType::TunnelHeartbeat {
            res matches ReaderStep::QueueAck(ack) && ack.frame_type == FrameType::TunnelHeartbeatAck && ack.flags == 0
                && ack.stream_id == 0 && ack.meta@ == frame.meta@ && ack.data@.len() == 0
        } else {
            res == ReaderStep::Deliver(frame)
        },
{
    let nonce = if frame.frame_type == FrameType::TunnelHeartbeatAck {
        decode_heartbeat_nonce(frame.meta.as_slice())
    } else {
        None
    };
    reader_step_for(frame, nonce)
}

/// How queueing an ack without waiting went.
#[derive(Debug, Clone, Copy, PartialEq, Eq, Structural)]
pub enum AckQueueOutcome {
    Queued,
    /// The writer's queue is full: the ack is dropped.
    Full,
    /// The writer is gone.
    Closed,
}

/// Whether the reader goes on after queueing an ack: it stops only when
/// the writer is gone.
pub fn ack_queue_step(outcome: AckQueueOutcome) -> (res: bool)
    ensures
        res == (outcome != AckQueueOutcome::Closed),
{
    match outcome {
        AckQueueOutcome::Queued => true,
        AckQueueOutcome::Full => true,
        AckQueueOutcome::Closed => false,
    }
}

/// The error the reader hands on when reading fails; it stops after it. An
/// unexpected end of the stream means the daemon closed the tunnel.
pub fn reader_read_error(unexpected_eof: bool, message: String) -> (res: String)
    ensures
        unexpected_eof ==> res@ == "port tunnel closed"@,
        !unexpected_eof ==> res == message,
{
    if unexpected_eof {
        String::from_str("port tunnel closed")
    } else {
        message
    }
}

// ------------------------------------------------------------ heartbeat loop

/// Where the heartbeat loop stands.
#[derive(Debug, Clone, Copy, PartialEq, Eq, Structural)]
pub enum HeartbeatState {
    /// Waiting for the interval to pass; `next_nonce` goes out next.
    Idle { next_nonce: u64 },
    /// The heartbeat with `nonce` is being queued.
    Sending { nonce: u64, next_nonce: u64 },
    /// The heartbeat with `nonce` was queued; its ack is awaited.
    Awaiting { nonce: u64, next_nonce: u64 },
    /// The tunnel failed its liveness check.
    Failed,
}

/// What happened to the heartbeat loop.
#[derive(Debug, Clone, Copy, PartialEq, Eq, Structural)]
pub enum HeartbeatEvent {
    /// The interval passed.
    Tick,
    /// The heartbeat was queued.
    Queued,
    /// The heartbeat could not be queued within the timeout.
    QueueFailed,
    /// The reader recorded an ack of `nonce`.
    AckSeen(u64),
    /// No ack of the awaited nonce came within the timeout.
    AckTimeout,
}

/// What the heartbeat loop does next.
#[derive(Debug, Clone, Copy, PartialEq, Eq, Structural)]
pub enum HeartbeatAction {
    /// Queue the heartbeat frame with this nonce (`heartbeat_frame`).
    Send(u64),
    /// Wait for the ack, or for the timeout.
    WaitForAck,
    /// Wait for the next interval.
    Sleep,
    /// Fail the tunnel with this kind of I/O error, whose message is
    /// `heartbeat_failure_message`.
    Fail(IoErrorKind),
    /// Nothing changes.
    Ignore,
}

/// The loop's state before its first heartbeat: the first nonce is 1.
pub fn heartbeat_start() -> (res: HeartbeatState)
    ensures
        res == (HeartbeatState::Idle { next_nonce: 1 }),
{
    HeartbeatState::Idle { next_nonce: 1 }
}

pub open spec fn sat_inc(n: u64) -> u64 {
    if n == u64::MAX { n } else { (n + 1) as u64 }
}

/// The heartbeat loop's state machine.
pub open spec fn spec_heartbeat_step(s: HeartbeatState, e: HeartbeatEvent) -> (HeartbeatState, HeartbeatAction) {
    match (s, e) {
        (HeartbeatState::Idle { next_nonce }, HeartbeatEvent::Tick) =>
            (HeartbeatState::Sending { nonce: next_nonce, next_nonce: sat_inc(next_nonce) }, HeartbeatAction::Send(next_nonce)),
        (HeartbeatState::Sending { nonce, next_nonce }, HeartbeatEvent::Queued) =>
            (HeartbeatState::Awaiting { nonce, next_nonce }, HeartbeatAction::WaitForAck),
        (HeartbeatState::Sending { .. }, HeartbeatEvent::QueueFailed) =>
            (HeartbeatState::Failed, HeartbeatAction::Fail(IoErrorKind::BrokenPipe)),
        (HeartbeatState::Awaiting { nonce, next_nonce }, HeartbeatEvent::AckSeen(n)) => if n == nonce {
            (HeartbeatState::Idle { next_nonce }, HeartbeatAction::Sleep)
        } else {
            (s, HeartbeatAction::WaitForAck)
        },
        (HeartbeatState::Awaiting { .. }, HeartbeatEvent::AckTimeout) =>
            (HeartbeatState::Failed, HeartbeatAction::Fail(IoErrorKind::TimedOut)),
        _ => (s, HeartbeatAction::Ignore),
    }
}

/// One step of the heartbeat loop: each tick sends the next nonce (nonces
/// count up from 1, saturating); a heartbeat that cannot be queued fails
/// the tunnel with a broken pipe, an ack of the awaited nonce ends the
/// round, and no such ack within the timeout fails it as timed out.
pub fn heartbeat_step(s: HeartbeatState, e: HeartbeatEvent) -> (res: (HeartbeatState, HeartbeatAction))
    ensures
        res == spec_heartbeat_step(s, e),
{
    match (s, e) {
        (HeartbeatState::Idle { next_nonce }, HeartbeatEvent::Tick) => {
            let next = if next_nonce == u64::MAX { next_nonce } else { next_nonce + 1 };
            (HeartbeatState::Sending { nonce: next_nonce, next_nonce: next }, HeartbeatAction::Send(next_nonce))
        },
        (HeartbeatState::Sending { nonce, next_nonce }, HeartbeatEvent::Queued) =>
            (HeartbeatState::Awaiting { nonce, next_nonce }, HeartbeatAction::WaitForAck),
        (HeartbeatState::Sending { .. }, HeartbeatEvent::QueueFailed) =>
            (HeartbeatState::Failed, HeartbeatAction::Fail(IoErrorKind::BrokenPipe)),
        (HeartbeatState::Awaiting { nonce, next_nonce }, HeartbeatEvent::AckSeen(n)) => {
            if n == nonce {
                (HeartbeatState::Idle { next_nonce }, HeartbeatAction::Sleep)
            } else {
                (s, HeartbeatAction::WaitForAck)
            }
        },
        (HeartbeatState::Awaiting { .. }, HeartbeatEvent::AckTimeout) =>
            (HeartbeatState::Failed, HeartbeatAction::Fail(IoErrorKind::TimedOut)),
        _ => (s, HeartbeatAction::Ignore),
    }
}

pub open spec fn heartbeat_failure_text(kind: IoErrorKind) -> Seq<char> {
    if kind == IoErrorKind::BrokenPipe {
        "port tunnel heartbeat could not be queued"@
    } else {
        "port tunnel heartbeat timed out"@
    }
}

/// The message a failed heartbeat reports with the error kind of its
/// `Fail` action.
pub fn heartbeat_failure_message(kind: IoErrorKind) -> (res: String)
    ensures
        res@ == heartbeat_failure_text(kind),
{
    if kind == IoErrorKind::BrokenPipe {
        String::from_str("port tunnel heartbeat could not be queued")
    } else {
        String::from_str("port tunnel heartbeat timed out")
    }
}

/// Each round of the heartbeat loop sends a nonce no smaller than the
/// previous one, and a larger one until the nonces run out: a late ack of
/// an earlier round never ends a later round.
pub proof fn lemma_heartbeat_nonces_increase(n: u64)
    ensures
        ({
            let (s1, a1) = spec_heartbeat_step(HeartbeatState::Idle { next_nonce: n }, HeartbeatEvent::Tick);
            &&& a1 == HeartbeatAction::Send(n)
            &&& s1 matches HeartbeatState::Sending { nonce, next_nonce } && nonce == n
                && (n < u64::MAX ==> next_nonce > n) && next_nonce >= n
        }),
{
}

} // verus!
