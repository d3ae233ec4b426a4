//! Frames exchanged on a port tunnel, as the broker's forwarding loops see them.
use vstd::prelude::*;

verus! {

#[derive(Debug, Clone, Copy, PartialEq, Eq, Structural)]
pub enum FrameType {
    Error,
    Close,
    TunnelOpen,
    TunnelReady,
    TunnelClose,
    TunnelClosed,
    TunnelHeartbeat,
    TunnelHeartbeatAck,
    SessionOpen,
    SessionReady,
    SessionResume,
    SessionResumed,
    TcpListen,
    TcpListenOk,
    TcpAccept,
    TcpConnect,
    TcpConnectOk,
    TcpData,
    TcpEof,
    UdpBind,
    UdpBindOk,
    UdpDatagram,
    ForwardDrop,
    Data,
    Complete,
}

/// One tunnel frame.
#[derive(Debug)]
pub struct Frame {
    pub frame_type: FrameType,
    pub flags: u8,
    pub stream_id: u32,
    pub meta: Vec<u8>,
    pub data: Vec<u8>,
}

/// Bytes a frame holds in its metadata and payload (saturating).
pub open spec fn spec_frame_data_bytes(f: Frame) -> nat {
    if f.meta@.len() + f.data@.len() > usize::MAX { usize::MAX as nat } else { (f.meta@.len() + f.data@.len()) as nat }
}

pub fn frame_data_bytes(frame: &Frame) -> (res: usize)
    ensures
        res == spec_frame_data_bytes(*frame),
{
    frame.meta.len().saturating_add(frame.data.len())
}

impl Frame {
    /// A close frame for `stream_id`.
    pub fn close(stream_id: u32) -> (res: Frame)
        ensures
            res.frame_type == FrameType::Close,
            res.flags == 0,
            res.stream_id == stream_id,
            res.meta@.len() == 0,
            res.data@.len() == 0,
    {
        Frame { frame_type: FrameType::Close, flags: 0, stream_id, meta: Vec::new(), data: Vec::new() }
    }
}

} // verus!
