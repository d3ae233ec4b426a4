//! The listen side's session with its daemon: the tunnel generation in use
//! and the tunnel that serves it, replaced each time the session resumes.
use vstd::prelude::*;

verus! {

/// Stream id of the listener on a listen session's tunnel.
pub const LISTEN_SESSION_STREAM_ID: u32 = 1;

/// The listen session's generation and current tunnel `T`.
pub struct ListenSessionState<T> {
    pub generation: u64,
    pub current_tunnel: Option<T>,
}

impl<T> ListenSessionState<T> {
    /// A session opened at `generation` on `tunnel`.
    pub fn new(generation: u64, tunnel: Option<T>) -> (res: Self)
        ensures
            res.generation == generation,
            res.current_tunnel == tunnel,
    {
        ListenSessionState { generation, current_tunnel: tunnel }
    }

    /// Starts the next generation, for a reconnect; returns it.
    pub fn advance_generation(&mut self) -> (res: u64)
        requires
            old(self).generation < u64::MAX,
        ensures
            res == old(self).generation + 1,
            final(self).generation == res,
            final(self).current_tunnel == old(self).current_tunnel,
    {
        self.generation = self.generation + 1;
        self.generation
    }

    /// The session resumed at `generation` on `tunnel`.
    pub fn replace_current_tunnel(&mut self, generation: u64, tunnel: T)
        ensures
            final(self).generation == generation,
            final(self).current_tunnel == Some(tunnel),
    {
        self.generation = generation;
        self.current_tunnel = Some(tunnel);
    }
}

/// One epoch of a forward: its generation and the tunnels of both sides.
pub struct ForwardEpoch<T> {
    pub generation: u64,
    pub listen_tunnel: T,
    pub connect_tunnel: T,
}

impl<T> ForwardEpoch<T> {
    pub fn new(generation: u64, listen_tunnel: T, connect_tunnel: T) -> (res: Self)
        ensures
            res.generation == generation,
            res.listen_tunnel == listen_tunnel,
            res.connect_tunnel == connect_tunnel,
    {
        ForwardEpoch { generation, listen_tunnel, connect_tunnel }
    }
}

/// A recovery opens the forward's next epoch at the generation its listen
/// session advances to; as no epoch is ahead of its session, the new epoch
/// is newer than the one it replaces.
pub proof fn lemma_recovered_epoch_is_newer<T>(session: ListenSessionState<T>, epoch: ForwardEpoch<T>, next: u64)
    requires
        epoch.generation <= session.generation,
        next == session.generation + 1,
    ensures
        next > epoch.generation,
        next > session.generation,
{
}

} // verus!
