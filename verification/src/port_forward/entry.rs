//! The public record of one port forward and the rules that derive its phase.
use vstd::prelude::*;

use super::limits::ForwardPortLimitSummary;

verus! {

/// Generation number of the first tunnel pair of a forward.
pub const INITIAL_FORWARD_GENERATION: u64 = 1;

#[derive(Debug, Clone, Copy, PartialEq, Eq, Structural)]
pub enum ForwardPortProtocol {
    Tcp,
    Udp,
}

#[derive(Debug, Clone, Copy, PartialEq, Eq, Structural)]
pub enum ForwardPortStatus {
    Open,
    Closed,
    Failed,
}

#[derive(Debug, Clone, Copy, PartialEq, Eq, Structural)]
pub enum ForwardPortPhase {
    Ready,
    Reconnecting,
    Failed,
    Closed,
}

#[derive(Debug, Clone, Copy, PartialEq, Eq, Structural)]
pub enum ForwardPortSideHealth {
    Ready,
    Reconnecting,
    Failed,
    Closed,
}

#[derive(Debug, Clone, Copy, PartialEq, Eq, Structural)]
pub enum ForwardPortSideRole {
    Listen,
    Connect,
}

/// Health of one side (listen or connect) of a forward.
#[derive(Debug, Clone)]
pub struct ForwardPortSideState {
    pub health: ForwardPortSideHealth,
    pub last_error: Option<String>,
    pub generation: u64,
}

/// What the broker reports about one forward.
#[derive(Debug, Clone)]
pub struct ForwardPortEntry {
    pub forward_id: String,
    pub listen_side: String,
    pub listen_endpoint: String,
    pub connect_side: String,
    pub connect_endpoint: String,
    pub protocol: ForwardPortProtocol,
    pub status: ForwardPortStatus,
    pub phase: ForwardPortPhase,
    pub listen_state: ForwardPortSideState,
    pub connect_state: ForwardPortSideState,
    pub last_error: Option<String>,
    pub reconnect_attempts: u64,
    pub last_reconnect_at: Option<u64>,
    pub active_tcp_streams: u64,
    pub dropped_tcp_streams: u64,
    pub dropped_udp_datagrams: u64,
    pub limits: ForwardPortLimitSummary,
}

/// The phase that the health of the two sides implies.
pub open spec fn phase_of(listen: ForwardPortSideHealth, connect: ForwardPortSideHealth) -> ForwardPortPhase {
    if listen == ForwardPortSideHealth::Failed || connect == ForwardPortSideHealth::Failed {
        ForwardPortPhase::Failed
    } else if listen == ForwardPortSideHealth::Closed && connect == ForwardPortSideHealth::Closed {
        ForwardPortPhase::Closed
    } else if listen == ForwardPortSideHealth::Ready && connect == ForwardPortSideHealth::Ready {
        ForwardPortPhase::Ready
    } else {
        ForwardPortPhase::Reconnecting
    }
}

pub open spec fn spec_derive_phase(entry: ForwardPortEntry) -> ForwardPortPhase {
    phase_of(entry.listen_state.health, entry.connect_state.health)
}

/// An open forward whose sides are not both ready (and none failed): it
/// counts against the broker's reconnecting limit.
pub open spec fn is_reconnecting(entry: ForwardPortEntry) -> bool {
    entry.status == ForwardPortStatus::Open && spec_derive_phase(entry) == ForwardPortPhase::Reconnecting
}

pub open spec fn side_with_health(side: ForwardPortSideState, health: ForwardPortSideHealth, last_error: Option<String>) -> ForwardPortSideState {
    ForwardPortSideState { health: health, last_error: last_error, ..side }
}

/// The entry after the forward failed with `error`.
pub open spec fn failed_entry(entry: ForwardPortEntry, error: String) -> ForwardPortEntry {
    ForwardPortEntry {
        status: ForwardPortStatus::Failed,
        phase: ForwardPortPhase::Failed,
        listen_state: side_with_health(entry.listen_state, ForwardPortSideHealth::Failed, entry.listen_state.last_error),
        connect_state: side_with_health(entry.connect_state, ForwardPortSideHealth::Failed, entry.connect_state.last_error),
        last_error: Some(error),
        ..entry
    }
}

/// The entry reported for a forward that was closed.
pub open spec fn spec_closed_entry(entry: ForwardPortEntry) -> ForwardPortEntry {
    ForwardPortEntry {
        status: ForwardPortStatus::Closed,
        phase: ForwardPortPhase::Closed,
        listen_state: side_with_health(entry.listen_state, ForwardPortSideHealth::Closed, entry.listen_state.last_error),
        connect_state: side_with_health(entry.connect_state, ForwardPortSideHealth::Closed, entry.connect_state.last_error),
        last_error: None,
        ..entry
    }
}

pub fn derive_phase(entry: &ForwardPortEntry) -> (res: ForwardPortPhase)
    ensures
        res == spec_derive_phase(*entry),
{
    let listen = entry.listen_state.health;
    let connect = entry.connect_state.health;
    if listen == ForwardPortSideHealth::Failed || connect == ForwardPortSideHealth::Failed {
        ForwardPortPhase::Failed
    } else if listen == ForwardPortSideHealth::Closed && connect == ForwardPortSideHealth::Closed {
        ForwardPortPhase::Closed
    } else if listen == ForwardPortSideHealth::Ready && connect == ForwardPortSideHealth::Ready {
        ForwardPortPhase::Ready
    } else {
        ForwardPortPhase::Reconnecting
    }
}

pub fn is_reconnecting_entry(entry: &ForwardPortEntry) -> (res: bool)
    ensures
        res == is_reconnecting(*entry),
{
    entry.status == ForwardPortStatus::Open && derive_phase(entry) == ForwardPortPhase::Reconnecting
}

/// Marks the entry failed with `error`, both sides failed.
pub fn mark_entry_failed(entry: &mut ForwardPortEntry, error: String)
    ensures
        *final(entry) == failed_entry(*old(entry), error),
{
    entry.status = ForwardPortStatus::Failed;
    entry.phase = ForwardPortPhase::Failed;
    entry.listen_state.health = ForwardPortSideHealth::Failed;
    entry.connect_state.health = ForwardPortSideHealth::Failed;
    entry.last_error = Some(error);
}

/// The entry as it is reported once its forward was closed.
pub fn closed_entry(entry: ForwardPortEntry) -> (res: ForwardPortEntry)
    ensures
        res == spec_closed_entry(entry),
{
    let mut entry = entry;
    entry.status = ForwardPortStatus::Closed;
    entry.phase = ForwardPortPhase::Closed;
    entry.listen_state.health = ForwardPortSideHealth::Closed;
    entry.connect_state.health = ForwardPortSideHealth::Closed;
    entry.last_error = None;
    entry
}

pub open spec fn spec_new_open(
    forward_id: String,
    listen_side: String,
    listen_endpoint: String,
    connect_side: String,
    connect_endpoint: String,
    protocol: ForwardPortProtocol,
    limits: ForwardPortLimitSummary,
) -> ForwardPortEntry {
    ForwardPortEntry {
        forward_id,
        listen_side,
        listen_endpoint,
        connect_side,
        connect_endpoint,
        protocol,
        status: ForwardPortStatus::Open,
        phase: ForwardPortPhase::Ready,
        listen_state: ForwardPortSideState {
            health: ForwardPortSideHealth::Ready,
            last_error: None,
            generation: INITIAL_FORWARD_GENERATION,
        },
        connect_state: ForwardPortSideState {
            health: ForwardPortSideHealth::Ready,
            last_error: None,
            generation: INITIAL_FORWARD_GENERATION,
        },
        last_error: None,
        reconnect_attempts: 0,
        last_reconnect_at: None,
        active_tcp_streams: 0,
        dropped_tcp_streams: 0,
        dropped_udp_datagrams: 0,
        limits,
    }
}

impl ForwardPortEntry {
    /// A freshly opened forward: open and ready on both sides.
    pub fn new_open(
        forward_id: String,
        listen_side: String,
        listen_endpoint: String,
        connect_side: String,
        connect_endpoint: String,
        protocol: ForwardPortProtocol,
        limits: ForwardPortLimitSummary,
    ) -> (res: Self)
        ensures
            res == spec_new_open(forward_id, listen_side, listen_endpoint, connect_side, connect_endpoint, protocol, limits),
    {
        ForwardPortEntry {
            forward_id,
            listen_side,
            listen_endpoint,
            connect_side,
            connect_endpoint,
            protocol,
            status: ForwardPortStatus::Open,
            phase: ForwardPortPhase::Ready,
            listen_state: ForwardPortSideState {
                health: ForwardPortSideHealth::Ready,
                last_error: None,
                generation: INITIAL_FORWARD_GENERATION,
            },
            connect_state: ForwardPortSideState {
                health: ForwardPortSideHealth::Ready,
                last_error: None,
                generation: INITIAL_FORWARD_GENERATION,
            },
            last_error: None,
            reconnect_attempts: 0,
            last_reconnect_at: None,
            active_tcp_streams: 0,
            dropped_tcp_streams: 0,
            dropped_udp_datagrams: 0,
            limits,
        }
    }
}

pub fn copy_opt_string(s: &Option<String>) -> (res: Option<String>)
    ensures
        res == *s,
{
    match s {
        Some(v) => Some(v.clone()),
        None => None,
    }
}

impl ForwardPortSideState {
    /// A copy of this side state.
    pub fn duplicate(&self) -> (res: Self)
        ensures
            res == *self,
    {
        ForwardPortSideState {
            health: self.health,
            last_error: copy_opt_string(&self.last_error),
            generation: self.generation,
        }
    }
}

impl ForwardPortEntry {
    /// A copy of this entry.
    pub fn duplicate(&self) -> (res: Self)
        ensures
            res == *self,
    {
        ForwardPortEntry {
            forward_id: self.forward_id.clone(),
            listen_side: self.listen_side.clone(),
            listen_endpoint: self.listen_endpoint.clone(),
            connect_side: self.connect_side.clone(),
            connect_endpoint: self.connect_endpoint.clone(),
            protocol: self.protocol,
            status: self.status,
            phase: self.phase,
            listen_state: self.listen_state.duplicate(),
            connect_state: self.connect_state.duplicate(),
            last_error: copy_opt_string(&self.last_error),
            reconnect_attempts: self.reconnect_attempts,
            last_reconnect_at: self.last_reconnect_at,
            active_tcp_streams: self.active_tcp_streams,
            dropped_tcp_streams: self.dropped_tcp_streams,
            dropped_udp_datagrams: self.dropped_udp_datagrams,
            limits: self.limits,
        }
    }
}

/// A failed or closed entry never counts as reconnecting, and an entry
/// whose sides are both ready does not either.
pub proof fn lemma_settled_entries_are_not_reconnecting(entry: ForwardPortEntry, error: String)
    ensures
        !is_reconnecting(failed_entry(entry, error)),
        !is_reconnecting(spec_closed_entry(entry)),
        spec_derive_phase(failed_entry(entry, error)) == ForwardPortPhase::Failed,
        spec_derive_phase(spec_closed_entry(entry)) == ForwardPortPhase::Closed,
{
}

} // verus!
