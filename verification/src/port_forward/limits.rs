//! Broker-side port forward limits and how they combine with the limits
//! that each tunnel endpoint reports.
use vstd::prelude::*;

verus! {

/// Bytes a port tunnel may hold queued for writing when nothing else is set.
pub const DEFAULT_TUNNEL_QUEUE_BYTES: u64 = 8388608;

/// The limits of one forward, as reported to clients.
#[derive(Debug, Clone, Copy, PartialEq, Eq, Structural)]
pub struct ForwardPortLimitSummary {
    pub max_active_tcp_streams: u64,
    pub max_udp_peers: u64,
    pub max_pending_tcp_bytes_per_stream: u64,
    pub max_pending_tcp_bytes_per_forward: u64,
    pub max_tunnel_queued_bytes: u64,
    pub max_reconnecting_forwards: usize,
}

/// The limits one tunnel endpoint (broker host or daemon) enforces.
#[derive(Debug, Clone, Copy, PartialEq, Eq, Structural)]
pub struct TunnelLimitSummary {
    pub max_active_tcp_streams: u64,
    pub max_udp_peers: u64,
    pub max_queued_bytes: u64,
}

/// The broker's own port forward limits, from its configuration.
#[derive(Debug, Clone, Copy, PartialEq, Eq, Structural)]
pub struct BrokerPortForwardLimits {
    pub max_open_forwards_total: usize,
    pub max_forwards_per_side_pair: usize,
    pub max_active_tcp_streams_per_forward: u64,
    pub max_pending_tcp_bytes_per_stream: u64,
    pub max_pending_tcp_bytes_per_forward: u64,
    pub max_udp_peers_per_forward: u64,
    pub max_tunnel_queued_bytes: u64,
    pub max_reconnecting_forwards: usize,
}

/// The first limit that [`BrokerPortForwardLimits::validate`] finds broken.
#[derive(Debug, Clone, Copy, PartialEq, Eq, Structural)]
pub enum LimitsError {
    MaxOpenForwardsTotalZero,
    MaxForwardsPerSidePairZero,
    MaxActiveTcpStreamsZero,
    MaxPendingTcpBytesPerStreamZero,
    PendingPerForwardBelowPerStream,
    MaxUdpPeersZero,
    MaxTunnelQueuedBytesZero,
    MaxReconnectingForwardsZero,
}

pub open spec fn limits_error_text(e: LimitsError) -> Seq<char> {
    match e {
        LimitsError::MaxOpenForwardsTotalZero => "port_forward_limits.max_open_forwards_total must be greater than zero"@,
        LimitsError::MaxForwardsPerSidePairZero => "port_forward_limits.max_forwards_per_side_pair must be greater than zero"@,
        LimitsError::MaxActiveTcpStreamsZero => "port_forward_limits.max_active_tcp_streams_per_forward must be greater than zero"@,
        LimitsError::MaxPendingTcpBytesPerStreamZero => "port_forward_limits.max_pending_tcp_bytes_per_stream must be greater than zero"@,
        LimitsError::PendingPerForwardBelowPerStream => "port_forward_limits.max_pending_tcp_bytes_per_forward must be at least max_pending_tcp_bytes_per_stream"@,
        LimitsError::MaxUdpPeersZero => "port_forward_limits.max_udp_peers_per_forward must be greater than zero"@,
        LimitsError::MaxTunnelQueuedBytesZero => "port_forward_limits.max_tunnel_queued_bytes must be greater than zero"@,
        LimitsError::MaxReconnectingForwardsZero => "port_forward_limits.max_reconnecting_forwards must be greater than zero"@,
    }
}

impl LimitsError {
    /// The message the broker reports for this error.
    pub fn to_string(&self) -> (res: String)
        ensures
            res@ == limits_error_text(*self),
    {
        let text = match self {
            LimitsError::MaxOpenForwardsTotalZero => "port_forward_limits.max_open_forwards_total must be greater than zero",
            LimitsError::MaxForwardsPerSidePairZero => "port_forward_limits.max_forwards_per_side_pair must be greater than zero",
            LimitsError::MaxActiveTcpStreamsZero => "port_forward_limits.max_active_tcp_streams_per_forward must be greater than zero",
            LimitsError::MaxPendingTcpBytesPerStreamZero => "port_forward_limits.max_pending_tcp_bytes_per_stream must be greater than zero",
            LimitsError::PendingPerForwardBelowPerStream => "port_forward_limits.max_pending_tcp_bytes_per_forward must be at least max_pending_tcp_bytes_per_stream",
            LimitsError::MaxUdpPeersZero => "port_forward_limits.max_udp_peers_per_forward must be greater than zero",
            LimitsError::MaxTunnelQueuedBytesZero => "port_forward_limits.max_tunnel_queued_bytes must be greater than zero",
            LimitsError::MaxReconnectingForwardsZero => "port_forward_limits.max_reconnecting_forwards must be greater than zero",
        };
        String::from_str(text)
    }
}

/// The first broken limit, checked in the order the broker checks them.
pub open spec fn spec_limits_validate(l: BrokerPortForwardLimits) -> Result<(), LimitsError> {
    if l.max_open_forwards_total == 0 {
        Err(LimitsError::MaxOpenForwardsTotalZero)
    } else if l.max_forwards_per_side_pair == 0 {
        Err(LimitsError::MaxForwardsPerSidePairZero)
    } else if l.max_active_tcp_streams_per_forward == 0 {
        Err(LimitsError::MaxActiveTcpStreamsZero)
    } else if l.max_pending_tcp_bytes_per_stream == 0 {
        Err(LimitsError::MaxPendingTcpBytesPerStreamZero)
    } else if l.max_pending_tcp_bytes_per_forward < l.max_pending_tcp_bytes_per_stream {
        Err(LimitsError::PendingPerForwardBelowPerStream)
    } else if l.max_udp_peers_per_forward == 0 {
        Err(LimitsError::MaxUdpPeersZero)
    } else if l.max_tunnel_queued_bytes == 0 {
        Err(LimitsError::MaxTunnelQueuedBytesZero)
    } else if l.max_reconnecting_forwards == 0 {
        Err(LimitsError::MaxReconnectingForwardsZero)
    } else {
        Ok(())
    }
}

pub open spec fn spec_public_summary(l: BrokerPortForwardLimits) -> ForwardPortLimitSummary {
    ForwardPortLimitSummary {
        max_active_tcp_streams: l.max_active_tcp_streams_per_forward,
        max_udp_peers: l.max_udp_peers_per_forward,
        max_pending_tcp_bytes_per_stream: l.max_pending_tcp_bytes_per_stream,
        max_pending_tcp_bytes_per_forward: l.max_pending_tcp_bytes_per_forward,
        max_tunnel_queued_bytes: l.max_tunnel_queued_bytes,
        max_reconnecting_forwards: l.max_reconnecting_forwards,
    }
}

impl BrokerPortForwardLimits {
    /// The limits a broker uses when its configuration names none.
    pub fn default() -> (res: Self)
        ensures
            res.max_open_forwards_total == 64,
            res.max_forwards_per_side_pair == 16,
            res.max_active_tcp_streams_per_forward == 256,
            res.max_pending_tcp_bytes_per_stream == 256 * 1024,
            res.max_pending_tcp_bytes_per_forward == 2 * 1024 * 1024,
            res.max_udp_peers_per_forward == 256,
            res.max_tunnel_queued_bytes == DEFAULT_TUNNEL_QUEUE_BYTES,
            res.max_reconnecting_forwards == 16,
    {
        BrokerPortForwardLimits {
            max_open_forwards_total: 64,
            max_forwards_per_side_pair: 16,
            max_active_tcp_streams_per_forward: 256,
            max_pending_tcp_bytes_per_stream: 256 * 1024,
            max_pending_tcp_bytes_per_forward: 2 * 1024 * 1024,
            max_udp_peers_per_forward: 256,
            max_tunnel_queued_bytes: DEFAULT_TUNNEL_QUEUE_BYTES,
            max_reconnecting_forwards: 16,
        }
    }

    /// The per-forward part of these limits, as reported to clients.
    pub fn public_summary(self) -> (res: ForwardPortLimitSummary)
        ensures
            res == spec_public_summary(self),
    {
        ForwardPortLimitSummary {
            max_active_tcp_streams: self.max_active_tcp_streams_per_forward,
            max_udp_peers: self.max_udp_peers_per_forward,
            max_pending_tcp_bytes_per_stream: self.max_pending_tcp_bytes_per_stream,
            max_pending_tcp_bytes_per_forward: self.max_pending_tcp_bytes_per_forward,
            max_tunnel_queued_bytes: self.max_tunnel_queued_bytes,
            max_reconnecting_forwards: self.max_reconnecting_forwards,
        }
    }

    /// Checks that every limit is usable: all positive, and the per-forward
    /// pending budget at least the per-stream one.
    pub fn validate(&self) -> (res: Result<(), LimitsError>)
        ensures
            res == spec_limits_validate(*self),
    {
        if self.max_open_forwards_total == 0 {
            return Err(LimitsError::MaxOpenForwardsTotalZero);
        }
        if self.max_forwards_per_side_pair == 0 {
            return Err(LimitsError::MaxForwardsPerSidePairZero);
        }
        if self.max_active_tcp_streams_per_forward == 0 {
            return Err(LimitsError::MaxActiveTcpStreamsZero);
        }
        if self.max_pending_tcp_bytes_per_stream == 0 {
            return Err(LimitsError::MaxPendingTcpBytesPerStreamZero);
        }
        if self.max_pending_tcp_bytes_per_forward < self.max_pending_tcp_bytes_per_stream {
            return Err(LimitsError::PendingPerForwardBelowPerStream);
        }
        if self.max_udp_peers_per_forward == 0 {
            return Err(LimitsError::MaxUdpPeersZero);
        }
        if self.max_tunnel_queued_bytes == 0 {
            return Err(LimitsError::MaxTunnelQueuedBytesZero);
        }
        if self.max_reconnecting_forwards == 0 {
            return Err(LimitsError::MaxReconnectingForwardsZero);
        }
        Ok(())
    }
}

pub open spec fn min_u64(a: u64, b: u64) -> u64 {
    if a <= b { a } else { b }
}

fn min_of(a: u64, b: u64) -> (res: u64)
    ensures
        res == min_u64(a, b),
{
    if a <= b { a } else { b }
}

pub open spec fn spec_effective_forward_limits(
    broker: ForwardPortLimitSummary,
    listen: TunnelLimitSummary,
    connect: TunnelLimitSummary,
) -> ForwardPortLimitSummary {
    ForwardPortLimitSummary {
        max_active_tcp_streams: min_u64(min_u64(broker.max_active_tcp_streams, listen.max_active_tcp_streams), connect.max_active_tcp_streams),
        max_udp_peers: min_u64(min_u64(broker.max_udp_peers, listen.max_udp_peers), connect.max_udp_peers),
        max_tunnel_queued_bytes: min_u64(min_u64(broker.max_tunnel_queued_bytes, listen.max_queued_bytes), connect.max_queued_bytes),
        ..broker
    }
}

/// The limits that hold for a forward: for streams, peers and queued bytes
/// the tightest of the broker's and both tunnel endpoints'; the pending
/// budgets and the reconnect limit are the broker's alone.
pub fn effective_forward_limits(
    broker: ForwardPortLimitSummary,
    listen: &TunnelLimitSummary,
    connect: &TunnelLimitSummary,
) -> (res: ForwardPortLimitSummary)
    ensures
        res == spec_effective_forward_limits(broker, *listen, *connect),
{
    ForwardPortLimitSummary {
        max_active_tcp_streams: min_of(min_of(broker.max_active_tcp_streams, listen.max_active_tcp_streams), connect.max_active_tcp_streams),
        max_udp_peers: min_of(min_of(broker.max_udp_peers, listen.max_udp_peers), connect.max_udp_peers),
        max_pending_tcp_bytes_per_stream: broker.max_pending_tcp_bytes_per_stream,
        max_pending_tcp_bytes_per_forward: broker.max_pending_tcp_bytes_per_forward,
        max_tunnel_queued_bytes: min_of(min_of(broker.max_tunnel_queued_bytes, listen.max_queued_bytes), connect.max_queued_bytes),
        max_reconnecting_forwards: broker.max_reconnecting_forwards,
    }
}

/// The effective limits never exceed what the broker or either endpoint allows.
pub proof fn lemma_effective_limits_are_tightest(
    broker: ForwardPortLimitSummary,
    listen: TunnelLimitSummary,
    connect: TunnelLimitSummary,
)
    ensures
        ({
            let e = spec_effective_forward_limits(broker, listen, connect);
            &&& e.max_active_tcp_streams <= broker.max_active_tcp_streams
            &&& e.max_active_tcp_streams <= listen.max_active_tcp_streams
            &&& e.max_active_tcp_streams <= connect.max_active_tcp_streams
            &&& e.max_udp_peers <= broker.max_udp_peers
            &&& e.max_udp_peers <= listen.max_udp_peers
            &&& e.max_udp_peers <= connect.max_udp_peers
            &&& e.max_tunnel_queued_bytes <= broker.max_tunnel_queued_bytes
            &&& e.max_tunnel_queued_bytes <= listen.max_queued_bytes
            &&& e.max_tunnel_queued_bytes <= connect.max_queued_bytes
        }),
{
}

/// The effective limits take the pending budgets and the reconnect limit
/// from the broker unchanged, and for streams, peers and queued bytes the
/// smallest of the three limits: no more than any of them, and equal to one
/// of them.
pub proof fn lemma_effective_limits_exact(
    broker: ForwardPortLimitSummary,
    listen: TunnelLimitSummary,
    connect: TunnelLimitSummary,
)
    ensures
        ({
            let e = spec_effective_forward_limits(broker, listen, connect);
            &&& e.max_pending_tcp_bytes_per_stream == broker.max_pending_tcp_bytes_per_stream
            &&& e.max_pending_tcp_bytes_per_forward == broker.max_pending_tcp_bytes_per_forward
            &&& e.max_reconnecting_forwards == broker.max_reconnecting_forwards
            &&& e.max_active_tcp_streams <= broker.max_active_tcp_streams
            &&& e.max_active_tcp_streams <= listen.max_active_tcp_streams
            &&& e.max_active_tcp_streams <= connect.max_active_tcp_streams
            &&& (e.max_active_tcp_streams == broker.max_active_tcp_streams
                || e.max_active_tcp_streams == listen.max_active_tcp_streams
                || e.max_active_tcp_streams == connect.max_active_tcp_streams)
            &&& e.max_udp_peers <= broker.max_udp_peers
            &&& e.max_udp_peers <= listen.max_udp_peers
            &&& e.max_udp_peers <= connect.max_udp_peers
            &&& (e.max_udp_peers == broker.max_udp_peers || e.max_udp_peers == listen.max_udp_peers
                || e.max_udp_peers == connect.max_udp_peers)
            &&& e.max_tunnel_queued_bytes <= broker.max_tunnel_queued_bytes
            &&& e.max_tunnel_queued_bytes <= listen.max_queued_bytes
            &&& e.max_tunnel_queued_bytes <= connect.max_queued_bytes
            &&& (e.max_tunnel_queued_bytes == broker.max_tunnel_queued_bytes
                || e.max_tunnel_queued_bytes == listen.max_queued_bytes
                || e.max_tunnel_queued_bytes == connect.max_queued_bytes)
        }),
{
}

/// The limits as the forwarding loops use them.
#[derive(Debug, Clone, Copy, PartialEq, Eq, Structural)]
pub struct ForwardLimits {
    pub max_active_tcp_streams: u64,
    pub max_pending_tcp_bytes_per_stream: usize,
    pub max_pending_tcp_bytes_per_forward: usize,
    pub max_udp_peers: usize,
    pub max_tunnel_queued_bytes: usize,
    pub max_reconnecting_forwards: usize,
}

/// Whether every byte and peer limit of `s` fits a `usize`.
pub open spec fn summary_fits_usize(s: ForwardPortLimitSummary) -> bool {
    &&& s.max_pending_tcp_bytes_per_stream <= usize::MAX
    &&& s.max_pending_tcp_bytes_per_forward <= usize::MAX
    &&& s.max_udp_peers <= usize::MAX
    &&& s.max_tunnel_queued_bytes <= usize::MAX
}

/// The loop limits of a summary whose limits fit a `usize`.
pub open spec fn spec_limits_from_summary(s: ForwardPortLimitSummary) -> ForwardLimits {
    ForwardLimits {
        max_active_tcp_streams: s.max_active_tcp_streams,
        max_pending_tcp_bytes_per_stream: s.max_pending_tcp_bytes_per_stream as usize,
        max_pending_tcp_bytes_per_forward: s.max_pending_tcp_bytes_per_forward as usize,
        max_udp_peers: s.max_udp_peers as usize,
        max_tunnel_queued_bytes: s.max_tunnel_queued_bytes as usize,
        max_reconnecting_forwards: s.max_reconnecting_forwards,
    }
}

/// The summary reported for loop limits.
pub open spec fn spec_limits_summary(l: ForwardLimits) -> ForwardPortLimitSummary {
    ForwardPortLimitSummary {
        max_active_tcp_streams: l.max_active_tcp_streams,
        max_udp_peers: l.max_udp_peers as u64,
        max_pending_tcp_bytes_per_stream: l.max_pending_tcp_bytes_per_stream as u64,
        max_pending_tcp_bytes_per_forward: l.max_pending_tcp_bytes_per_forward as u64,
        max_tunnel_queued_bytes: l.max_tunnel_queued_bytes as u64,
        max_reconnecting_forwards: l.max_reconnecting_forwards,
    }
}

/// Reporting the loop limits made of a summary gives the summary back,
/// where its limits fit a `usize`.
pub proof fn lemma_summary_round_trip(s: ForwardPortLimitSummary)
    requires
        summary_fits_usize(s),
    ensures
        spec_limits_summary(spec_limits_from_summary(s)) == s,
{
}

impl ForwardLimits {
    /// Converts reported limits into loop limits; values that do not fit a
    /// `usize` are truncated, as an `as` cast does.
    pub fn from_summary(summary: ForwardPortLimitSummary) -> (res: Self)
        ensures
            res.max_active_tcp_streams == summary.max_active_tcp_streams,
            res.max_reconnecting_forwards == summary.max_reconnecting_forwards,
            summary.max_pending_tcp_bytes_per_stream <= usize::MAX ==> res.max_pending_tcp_bytes_per_stream == summary.max_pending_tcp_bytes_per_stream,
            summary.max_pending_tcp_bytes_per_forward <= usize::MAX ==> res.max_pending_tcp_bytes_per_forward == summary.max_pending_tcp_bytes_per_forward,
            summary.max_udp_peers <= usize::MAX ==> res.max_udp_peers == summary.max_udp_peers,
            summary.max_tunnel_queued_bytes <= usize::MAX ==> res.max_tunnel_queued_bytes == summary.max_tunnel_queued_bytes,
            summary_fits_usize(summary) ==> res == spec_limits_from_summary(summary),
    {
        ForwardLimits {
            max_active_tcp_streams: summary.max_active_tcp_streams,
            max_pending_tcp_bytes_per_stream: summary.max_pending_tcp_bytes_per_stream as usize,
            max_pending_tcp_bytes_per_forward: summary.max_pending_tcp_bytes_per_forward as usize,
            max_udp_peers: summary.max_udp_peers as usize,
            max_tunnel_queued_bytes: summary.max_tunnel_queued_bytes as usize,
            max_reconnecting_forwards: summary.max_reconnecting_forwards,
        }
    }

    /// The loop limits reported back as a summary.
    pub fn public_summary(self) -> (res: ForwardPortLimitSummary)
        ensures
            res.max_active_tcp_streams == self.max_active_tcp_streams,
            res.max_udp_peers == self.max_udp_peers,
            res.max_pending_tcp_bytes_per_stream == self.max_pending_tcp_bytes_per_stream,
            res.max_pending_tcp_bytes_per_forward == self.max_pending_tcp_bytes_per_forward,
            res.max_tunnel_queued_bytes == self.max_tunnel_queued_bytes,
            res.max_reconnecting_forwards == self.max_reconnecting_forwards,
            res == spec_limits_summary(self),
    {
        ForwardPortLimitSummary {
            max_active_tcp_streams: self.max_active_tcp_streams,
            max_udp_peers: self.max_udp_peers as u64,
            max_pending_tcp_bytes_per_stream: self.max_pending_tcp_bytes_per_stream as u64,
            max_pending_tcp_bytes_per_forward: self.max_pending_tcp_bytes_per_forward as u64,
            max_tunnel_queued_bytes: self.max_tunnel_queued_bytes as u64,
            max_reconnecting_forwards: self.max_reconnecting_forwards,
        }
    }

    /// The loop limits of a broker that runs with its default limits.
    pub fn default() -> (res: Self)
        ensures
            res.max_active_tcp_streams == 256,
            res.max_pending_tcp_bytes_per_stream == 256 * 1024,
            res.max_pending_tcp_bytes_per_forward == 2 * 1024 * 1024,
            res.max_udp_peers == 256,
            res.max_tunnel_queued_bytes == DEFAULT_TUNNEL_QUEUE_BYTES,
            res.max_reconnecting_forwards == 16,
    {
        ForwardLimits::from_summary(BrokerPortForwardLimits::default().public_summary())
    }
}

/// Limits that pass validation keep every budget positive in their summary.
pub proof fn lemma_valid_limits_have_positive_budgets(l: BrokerPortForwardLimits)
    requires
        spec_limits_validate(l) is Ok,
    ensures
        spec_public_summary(l).max_active_tcp_streams > 0,
        spec_public_summary(l).max_pending_tcp_bytes_per_stream > 0,
        spec_public_summary(l).max_pending_tcp_bytes_per_stream <= spec_public_summary(l).max_pending_tcp_bytes_per_forward,
        spec_public_summary(l).max_tunnel_queued_bytes > 0,
        spec_public_summary(l).max_reconnecting_forwards > 0,
{
}

} // verus!
