//! The TCP forwarding loop's stream bookkeeping for one epoch: stream pairs,
//! connect-side stream ids and the forward's active-stream count. Every way
//! a stream ends settles its active slot exactly once, and each change comes
//! with the counter update the forward's entry in the store must get.
use vstd::prelude::*;

use super::frame::{spec_frame_data_bytes, Frame};
use super::generation::{allocate_step, AllocatorView, StreamIdAllocator};
use super::store::CounterUpdate;
use super::tcp_state::{
    is_queued_stream, is_ready_stream, pair_of, sat_usize, PendingQueueResult, TcpConnectStream, TcpForwardState,
};

verus! {

/// How an ended stream gives back its active slot.
#[derive(Debug, Clone, Copy, PartialEq, Eq, Structural)]
pub enum Settlement {
    /// The stream finished normally.
    Release,
    /// The stream was dropped; it also counts as a dropped stream.
    Dropped,
}

pub open spec fn settlement_update(s: Settlement) -> CounterUpdate {
    match s {
        Settlement::Release => CounterUpdate::ReleasedActiveStream,
        Settlement::Dropped => CounterUpdate::DroppedActiveStreams(1),
    }
}

pub open spec fn accepting_listen(p: Option<(u32, u32)>) -> u32 {
    match p {
        Some((l, _)) => l,
        None => 0,
    }
}

pub open spec fn accepting_connect(p: Option<(u32, u32)>) -> u32 {
    match p {
        Some((_, c)) => c,
        None => 0,
    }
}

/// What an accepted listen-side connection gets.
#[derive(Debug, Clone, Copy, PartialEq, Eq, Structural)]
pub enum AcceptStart {
    /// The forward is at its active-stream limit: close the accepted stream
    /// and count it as dropped.
    Refused,
    /// The epoch has run out of connect stream ids: close the accepted
    /// stream and every active one, then recover the connect side.
    IdsExhausted,
    /// Open connect stream `id` (send its connect frame), then report the
    /// send's outcome with `finish_accept`.
    Connect(u32),
}

/// The stream pairs of one epoch and the forward's active streams.
pub struct TcpForwardLedger {
    state: TcpForwardState,
    ids: StreamIdAllocator,
    active: u64,
    accepting: Option<(u32, u32)>,
}

impl TcpForwardLedger {
    pub closed spec fn state(&self) -> TcpForwardState {
        self.state
    }

    pub closed spec fn ids(&self) -> AllocatorView {
        self.ids@
    }

    /// The forward's active streams as this loop accounts them.
    pub closed spec fn active(&self) -> nat {
        self.active as nat
    }

    /// The accept whose connect frame is in flight: (listen, connect).
    pub closed spec fn accepting(&self) -> Option<(u32, u32)> {
        self.accepting
    }

    /// Every active slot belongs to a paired stream or to the accept in
    /// flight, and fresh connect ids never collide with paired ones; every
    /// ledger keeps this at all times.
    #[verifier::type_invariant]
    pub open spec fn wf(self) -> bool {
        &&& self.state().wf()
        &&& self.active() == self.state().streams().len() + (if self.accepting() is Some { 1nat } else { 0nat })
        &&& self.ids().step > 0
        &&& !self.ids().exhausted ==> forall|k: u32| #[trigger] self.state().streams().contains_key(k) ==> k < self.ids().next
        &&& self.accepting() matches Some((l, c)) ==> !self.state().streams().contains_key(c)
            && (!self.ids().exhausted ==> c < self.ids().next)
    }

    /// An epoch with no streams, handing out the odd connect ids.
    pub fn new() -> (res: Self)
        ensures
            res.active() == 0,
            res.accepting() is None,
            res.state().streams() == Map::<u32, TcpConnectStream>::empty(),
    {
        TcpForwardLedger { state: TcpForwardState::new(), ids: StreamIdAllocator::new_odd(), active: 0, accepting: None }
    }

    pub fn active_streams(&self) -> (res: u64)
        ensures
            res == self.active(),
    {
        self.active
    }

    /// Takes the ledger apart, leaving an empty one in its place.
    fn into_parts(&mut self) -> (res: (TcpForwardState, StreamIdAllocator, u64, Option<(u32, u32)>))
        ensures
            res.0 == old(self).state(),
            res.1@ == old(self).ids(),
            res.2 == old(self).active(),
            res.3 == old(self).accepting(),
            old(self).wf(),
    {
        proof {
            use_type_invariant(&*self);
        }
        let mut me = TcpForwardLedger::new();
        std::mem::swap(&mut me, self);
        let TcpForwardLedger { state, ids, active, accepting } = me;
        (state, ids, active, accepting)
    }

    /// Puts a ledger together from parts that keep its invariant.
    fn from_parts(state: TcpForwardState, ids: StreamIdAllocator, active: u64, accepting: Option<(u32, u32)>) -> (res: Self)
        requires
            state.wf(),
            active == state.streams().len() + (if accepting is Some { 1nat } else { 0nat }),
            ids@.step > 0,
            !ids@.exhausted ==> forall|k: u32| #[trigger] state.streams().contains_key(k) ==> k < ids@.next,
            accepting matches Some((l, c)) ==> !state.streams().contains_key(c) && (!ids@.exhausted ==> c < ids@.next),
        ensures
            res.state() == state,
            res.ids() == ids@,
            res.active() == active,
            res.accepting() == accepting,
    {
        TcpForwardLedger { state, ids, active, accepting }
    }

    /// Takes an accepted listen stream: reserve an active slot under
    /// `max_active`, then a connect stream id.
    pub fn begin_accept(&mut self, listen_stream_id: u32, max_active: u64) -> (res: (AcceptStart, Vec<CounterUpdate>))
        requires
            old(self).accepting() is None,
        ensures
            final(self).state() == old(self).state(),
            if old(self).active() >= max_active {
                &&& res.0 == AcceptStart::Refused
                &&& res.1@ == seq![CounterUpdate::DroppedStream]
                &&& final(self).active() == old(self).active()
                &&& final(self).accepting() is None
                &&& final(self).ids() == old(self).ids()
            } else {
                let (next, id) = allocate_step(old(self).ids());
                &&& final(self).ids() == next
                &&& match id {
                    None => {
                        &&& res.0 == AcceptStart::IdsExhausted
                        &&& res.1@ == seq![CounterUpdate::ReservedActiveStream, CounterUpdate::DroppedActiveStreams(1)]
                        &&& final(self).active() == old(self).active()
                        &&& final(self).accepting() is None
                    },
                    Some(c) => {
                        &&& res.0 == AcceptStart::Connect(c)
                        &&& res.1@ == seq![CounterUpdate::ReservedActiveStream]
                        &&& final(self).active() == old(self).active() + 1
                        &&& final(self).accepting() == Some((listen_stream_id, c))
                    },
                }
            },
    {
        let mut updates: Vec<CounterUpdate> = Vec::new();
        if self.active >= max_active {
            updates.push(CounterUpdate::DroppedStream);
            return (AcceptStart::Refused, updates);
        }
        updates.push(CounterUpdate::ReservedActiveStream);
        let (state, mut ids, active, accepting) = self.into_parts();
        let ghost v0 = ids@;
        match ids.next() {
            None => {
                updates.push(CounterUpdate::DroppedActiveStreams(1));
                proof {
                    assert(ids@ == v0);
                }
                *self = Self::from_parts(state, ids, active, accepting);
                (AcceptStart::IdsExhausted, updates)
            },
            Some(c) => {
                proof {
                    assert(c == v0.next);
                    assert(!state.streams().contains_key(c));
                }
                *self = Self::from_parts(state, ids, active + 1, Some((listen_stream_id, c)));
                (AcceptStart::Connect(c), updates)
            },
        }
    }

    /// The accept's connect frame was sent (`sent`) or not: pair the
    /// streams, or drop the accepted stream. Returns the listen stream and
    /// the counter update a drop needs.
    pub fn finish_accept(&mut self, sent: bool) -> (res: (u32, Option<CounterUpdate>))
        requires
            old(self).accepting() is Some,
        ensures
            final(self).accepting() is None,
            final(self).ids() == old(self).ids(),
            res.0 == accepting_listen(old(self).accepting()),
            if sent {
                let c = accepting_connect(old(self).accepting());
                &&& res.1 is None
                &&& final(self).active() == old(self).active()
                &&& final(self).state().streams() == old(self).state().streams().insert(c, TcpConnectStream {
                    connect_stream_id: c,
                    listen_stream_id: res.0,
                    ready: false,
                    listen_eof: false,
                    connect_eof: false,
                    pending_frames: final(self).state().streams()[c].pending_frames,
                    pending_bytes: 0,
                })
                &&& final(self).state().streams()[c].pending_frames@.len() == 0
                &&& final(self).state().pending_total() == old(self).state().pending_total()
                &&& final(self).state().pairs() == old(self).state().pairs().insert(res.0, c)
            } else {
                &&& res.1 == Some(settlement_update(Settlement::Dropped))
                &&& final(self).active() == old(self).active() - 1
                &&& final(self).state() == old(self).state()
            },
    {
        let (mut state, ids, active, accepting) = self.into_parts();
        let (listen, connect) = match accepting {
            Some(pair) => pair,
            None => (0, 0),
        };
        if sent {
            let ghost m0 = state.streams();
            state.record_tcp_stream_pair(listen, connect);
            proof {
                assert(state.streams().dom() =~= m0.dom().insert(connect));
                assert(state.streams().remove(connect) =~= m0);
            }
            *self = Self::from_parts(state, ids, active, None);
            (listen, None)
        } else {
            *self = Self::from_parts(state, ids, active - 1, None);
            (listen, Some(CounterUpdate::DroppedActiveStreams(1)))
        }
    }

    /// Ends the stream pair of connect stream `connect_stream_id`, settled
    /// as `settlement`: the removed stream and the counter update.
    pub fn remove_stream(&mut self, connect_stream_id: u32, settlement: Settlement) -> (res: Option<(TcpConnectStream, CounterUpdate)>)
        ensures
            final(self).accepting() == old(self).accepting(),
            final(self).ids() == old(self).ids(),
            if !old(self).state().streams().contains_key(connect_stream_id) {
                res is None && final(self).state().streams() == old(self).state().streams()
                    && final(self).state().pairs() == old(self).state().pairs()
                    && final(self).state().pending_total() == old(self).state().pending_total()
                    && final(self).active() == old(self).active()
            } else {
                let st = old(self).state().streams()[connect_stream_id];
                &&& res matches Some((r, u)) && u == settlement_update(settlement)
                    && r.connect_stream_id == st.connect_stream_id && r.listen_stream_id == st.listen_stream_id
                    && r.ready == st.ready && r.listen_eof == st.listen_eof && r.connect_eof == st.connect_eof
                    && r.pending_frames@ == st.pending_frames@ && r.pending_bytes == 0
                &&& final(self).state().pending_total() == old(self).state().pending_total() - st.pending_bytes
                &&& final(self).state().streams() == old(self).state().streams().remove(connect_stream_id)
                &&& final(self).state().pairs() == old(self).state().pairs().remove(st.listen_stream_id)
                &&& final(self).active() == old(self).active() - 1
            },
    {
        let (mut state, ids, active, accepting) = self.into_parts();
        let ghost m0 = state.streams();
        match state.remove_stream_entry(connect_stream_id) {
            None => {
                proof {
                    assert(state.streams() =~= m0);
                }
                *self = Self::from_parts(state, ids, active, accepting);
                None
            },
            Some(st) => {
                *self = Self::from_parts(state, ids, active - 1, accepting);
                let u = match settlement {
                    Settlement::Release => CounterUpdate::ReleasedActiveStream,
                    Settlement::Dropped => CounterUpdate::DroppedActiveStreams(1),
                };
                Some((st, u))
            },
        }
    }

    /// Ends every stream pair, as when the connect tunnel is lost: the
    /// streams, whose listen sides are to be closed, and the counter update
    /// that drops them all (none when there were none).
    pub fn drop_all(&mut self) -> (res: (Vec<TcpConnectStream>, Option<CounterUpdate>))
        ensures
            final(self).accepting() == old(self).accepting(),
            final(self).state().streams() == Map::<u32, TcpConnectStream>::empty(),
            res.0@.len() == old(self).state().streams().len(),
            forall|i: int, j: int| 0 <= i < j < res.0@.len() ==> #[trigger] res.0@[i].connect_stream_id != #[trigger] res.0@[j].connect_stream_id,
            forall|k: int| 0 <= k < res.0@.len() ==> {
                let a = #[trigger] res.0@[k];
                let b = old(self).state().streams()[a.connect_stream_id];
                &&& old(self).state().streams().contains_key(a.connect_stream_id)
                &&& a.listen_stream_id == b.listen_stream_id
                &&& a.ready == b.ready
                &&& a.pending_frames@ == b.pending_frames@
                &&& a.pending_bytes == 0
            },
            final(self).state().pairs() == Map::<u32, u32>::empty(),
            final(self).state().pending_total() == 0,
            final(self).active() == old(self).active() - old(self).state().streams().len(),
            res.1 == if old(self).state().streams().len() == 0 {
                None::<CounterUpdate>
            } else {
                Some(CounterUpdate::DroppedActiveStreams(old(self).state().streams().len() as u64))
            },
    {
        let (mut state, ids, active, accepting) = self.into_parts();
        let streams = state.take_all_streams();
        let n = streams.len();
        proof {
            assert(n <= active);
            assert(state.streams().len() == 0);
        }
        *self = Self::from_parts(state, ids, active - n as u64, accepting);
        if n == 0 {
            (streams, None)
        } else {
            (streams, Some(CounterUpdate::DroppedActiveStreams(n as u64)))
        }
    }

    /// The connect stream paired with `listen_stream_id`.
    pub fn connect_for_listen(&self, listen_stream_id: u32) -> (res: Option<u32>)
        ensures
            res == pair_of(self.state().pairs(), listen_stream_id),
    {
        proof {
            use_type_invariant(self);
        }
        self.state.connect_for_listen(listen_stream_id)
    }

    /// The listen stream paired with `connect_stream_id`.
    pub fn listen_for_connect(&self, connect_stream_id: u32) -> (res: Option<u32>)
        ensures
            res == if self.state().streams().contains_key(connect_stream_id) {
                Some(self.state().streams()[connect_stream_id].listen_stream_id)
            } else {
                None::<u32>
            },
    {
        proof {
            use_type_invariant(self);
        }
        self.state.listen_for_connect(connect_stream_id)
    }

    /// Whether the connect stream has been acknowledged.
    pub fn stream_ready(&self, connect_stream_id: u32) -> (res: Option<bool>)
        ensures
            res == if self.state().streams().contains_key(connect_stream_id) {
                Some(self.state().streams()[connect_stream_id].ready)
            } else {
                None::<bool>
            },
    {
        proof {
            use_type_invariant(self);
        }
        self.state.stream_ready(connect_stream_id)
    }

    /// Whether both directions of the pair have ended.
    pub fn is_fully_eof(&self, connect_stream_id: u32) -> (res: Option<bool>)
        ensures
            res == if self.state().streams().contains_key(connect_stream_id) {
                Some(self.state().streams()[connect_stream_id].listen_eof && self.state().streams()[connect_stream_id].connect_eof)
            } else {
                None::<bool>
            },
    {
        proof {
            use_type_invariant(self);
        }
        self.state.is_fully_eof(connect_stream_id)
    }

    /// Holds `frame` back for a stream that is not ready, within the
    /// stream's and the forward's pending budgets.
    pub fn try_queue_pending_frame(
        &mut self,
        connect_stream_id: u32,
        frame: Frame,
        max_pending_tcp_bytes_per_stream: usize,
        max_pending_tcp_bytes_per_forward: usize,
    ) -> (res: Option<PendingQueueResult>)
        requires
            old(self).state().pending_total() + spec_frame_data_bytes(frame) <= usize::MAX,
        ensures
            final(self).active() == old(self).active(),
            final(self).accepting() == old(self).accepting(),
            final(self).state().pairs() == old(self).state().pairs(),
            if !old(self).state().streams().contains_key(connect_stream_id) {
                res is None && final(self).state().streams() == old(self).state().streams()
                    && final(self).state().pending_total() == old(self).state().pending_total()
            } else {
                let st = old(self).state().streams()[connect_stream_id];
                let next_stream = sat_usize(st.pending_bytes as nat, spec_frame_data_bytes(frame));
                let next_forward = sat_usize(old(self).state().pending_total(), spec_frame_data_bytes(frame));
                if next_stream > max_pending_tcp_bytes_per_stream || next_forward > max_pending_tcp_bytes_per_forward {
                    &&& res == Some(PendingQueueResult::LimitExceeded { listen_stream_id: st.listen_stream_id })
                    &&& final(self).state().streams() == old(self).state().streams()
                    &&& final(self).state().pending_total() == old(self).state().pending_total()
                } else {
                    let new_st = final(self).state().streams()[connect_stream_id];
                    &&& res == Some(PendingQueueResult::Queued)
                    &&& final(self).state().streams() == old(self).state().streams().insert(connect_stream_id, new_st)
                    &&& is_queued_stream(new_st, st, frame)
                    &&& final(self).state().pending_total() == next_forward
                    &&& final(self).state().pending_total() <= max_pending_tcp_bytes_per_forward
                }
            },
    {
        let (mut state, ids, active, accepting) = self.into_parts();
        let ghost m0 = state.streams();
        let res = state.try_queue_pending_frame(
            connect_stream_id,
            frame,
            max_pending_tcp_bytes_per_stream,
            max_pending_tcp_bytes_per_forward,
        );
        proof {
            assert(state.streams().dom() =~= m0.dom());
        }
        *self = Self::from_parts(state, ids, active, accepting);
        res
    }

    /// The connect stream is acknowledged: marks it ready and hands back
    /// its held frames, which are to be sent in order.
    pub fn mark_ready_and_take_pending(&mut self, connect_stream_id: u32) -> (res: Option<Vec<Frame>>)
        ensures
            final(self).active() == old(self).active(),
            final(self).accepting() == old(self).accepting(),
            final(self).state().pairs() == old(self).state().pairs(),
            if !old(self).state().streams().contains_key(connect_stream_id) {
                res is None && final(self).state().streams() == old(self).state().streams()
            } else {
                let st = old(self).state().streams()[connect_stream_id];
                &&& res matches Some(frames) && frames@ == st.pending_frames@
                &&& final(self).state().streams() == old(self).state().streams().insert(
                    connect_stream_id,
                    final(self).state().streams()[connect_stream_id],
                )
                &&& is_ready_stream(final(self).state().streams()[connect_stream_id], st)
                &&& final(self).state().pending_total() == old(self).state().pending_total() - st.pending_bytes
            },
    {
        let (mut state, ids, active, accepting) = self.into_parts();
        let ghost m0 = state.streams();
        let res = state.mark_ready_and_take_pending(connect_stream_id);
        proof {
            assert(state.streams().dom() =~= m0.dom());
        }
        *self = Self::from_parts(state, ids, active, accepting);
        res
    }

    /// The listen side of the pair ended.
    pub fn mark_listen_eof(&mut self, connect_stream_id: u32) -> (res: bool)
        ensures
            final(self).active() == old(self).active(),
            final(self).accepting() == old(self).accepting(),
            final(self).state().pairs() == old(self).state().pairs(),
            final(self).state().pending_total() == old(self).state().pending_total(),
            res == old(self).state().streams().contains_key(connect_stream_id),
            final(self).state().streams() == if res {
                old(self).state().streams().insert(
                    connect_stream_id,
                    TcpConnectStream { listen_eof: true, ..old(self).state().streams()[connect_stream_id] },
                )
            } else {
                old(self).state().streams()
            },
    {
        let (mut state, ids, active, accepting) = self.into_parts();
        let ghost m0 = state.streams();
        let res = state.mark_listen_eof(connect_stream_id);
        proof {
            assert(state.streams().dom() =~= m0.dom());
        }
        *self = Self::from_parts(state, ids, active, accepting);
        res
    }

    /// The connect side of the pair ended; returns the listen stream.
    pub fn mark_connect_eof(&mut self, connect_stream_id: u32) -> (res: Option<u32>)
        ensures
            final(self).active() == old(self).active(),
            final(self).accepting() == old(self).accepting(),
            final(self).state().pairs() == old(self).state().pairs(),
            final(self).state().pending_total() == old(self).state().pending_total(),
            if old(self).state().streams().contains_key(connect_stream_id) {
                &&& res == Some(old(self).state().streams()[connect_stream_id].listen_stream_id)
                &&& final(self).state().streams() == old(self).state().streams().insert(
                    connect_stream_id,
                    TcpConnectStream { connect_eof: true, ..old(self).state().streams()[connect_stream_id] },
                )
            } else {
                res is None && final(self).state().streams() == old(self).state().streams()
            },
    {
        let (mut state, ids, active, accepting) = self.into_parts();
        let ghost m0 = state.streams();
        let res = state.mark_connect_eof(connect_stream_id);
        proof {
            assert(state.streams().dom() =~= m0.dom());
        }
        *self = Self::from_parts(state, ids, active, accepting);
        res
    }

    /// The listen stream closed: its pair ends and its slot is released.
    /// Returns the connect stream to close, if the pair was still open.
    pub fn close_listen(&mut self, listen_stream_id: u32) -> (res: Option<(u32, CounterUpdate)>)
        ensures
            final(self).accepting() == old(self).accepting(),
            final(self).ids() == old(self).ids(),
            match pair_of(old(self).state().pairs(), listen_stream_id) {
                None => res is None && final(self).state().pairs() == old(self).state().pairs()
                    && final(self).state().streams() == old(self).state().streams()
                    && final(self).active() == old(self).active(),
                Some(c) => {
                    let p1 = old(self).state().pairs().remove(listen_stream_id);
                    if !old(self).state().streams().contains_key(c) {
                        res is None && final(self).state().pairs() == p1
                            && final(self).state().streams() == old(self).state().streams()
                            && final(self).active() == old(self).active()
                    } else {
                        &&& res == Some((c, settlement_update(Settlement::Release)))
                        &&& final(self).state().streams() == old(self).state().streams().remove(c)
                        &&& final(self).state().pairs() == p1.remove(old(self).state().streams()[c].listen_stream_id)
                        &&& final(self).active() == old(self).active() - 1
                    }
                },
            },
    {
        let (mut state, ids, active, accepting) = self.into_parts();
        let pair = state.remove_listen_pair(listen_stream_id);
        *self = Self::from_parts(state, ids, active, accepting);
        let connect = match pair {
            Some(c) => c,
            None => return None,
        };
        match self.remove_stream(connect, Settlement::Release) {
            Some((_, u)) => Some((connect, u)),
            None => None,
        }
    }
}

/// Once no stream is paired and no accept is in flight, the forward holds
/// no active slot: a loop that ends its streams leaks none.
pub proof fn lemma_no_streams_no_active(ledger: TcpForwardLedger)
    requires
        ledger.wf(),
        ledger.accepting() is None,
        ledger.state().streams().len() == 0,
    ensures
        ledger.active() == 0,
{
}

} // verus!
