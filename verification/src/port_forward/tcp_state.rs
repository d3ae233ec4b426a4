//! Bookkeeping of one TCP forward epoch: which listen-side stream is paired
//! with which connect-side stream, and the bytes held back for connect
//! streams that are not ready yet.
use std::collections::HashMap;
use vstd::prelude::*;

use super::frame::{frame_data_bytes, spec_frame_data_bytes, Frame};

verus! {

/// A connect-side stream and what is queued for it.
pub struct TcpConnectStream {
    pub connect_stream_id: u32,
    pub listen_stream_id: u32,
    pub ready: bool,
    pub listen_eof: bool,
    pub connect_eof: bool,
    pub pending_frames: Vec<Frame>,
    pub pending_bytes: usize,
}

/// Outcome of queueing a frame for a stream that is not ready.
#[derive(Debug, Clone, Copy, PartialEq, Eq, Structural)]
pub enum PendingQueueResult {
    Queued,
    LimitExceeded { listen_stream_id: u32 },
}

/// The bytes held back by all the streams of `m`.
pub open spec fn sum_pending(m: Map<u32, TcpConnectStream>) -> nat
    decreases m.len(),
{
    if m.dom().finite() && m.len() > 0 {
        let k = m.dom().choose();
        proof {
            assert(m.dom().contains(k));
        }
        m[k].pending_bytes as nat + sum_pending(m.remove(k))
    } else {
        0
    }
}

/// Taking any one stream out of the sum leaves the sum of the others.
pub proof fn lemma_sum_remove(m: Map<u32, TcpConnectStream>, k: u32)
    requires
        m.dom().finite(),
        m.contains_key(k),
    ensures
        sum_pending(m) == m[k].pending_bytes + sum_pending(m.remove(k)),
    decreases m.len(),
{
    let c = m.dom().choose();
    assert(m.dom().contains(c));
    if c != k {
        let mc = m.remove(c);
        let mk = m.remove(k);
        lemma_sum_remove(mc, k);
        lemma_sum_remove(mk, c);
        assert(mc.remove(k) =~= mk.remove(c));
    }
}

/// The sum after `k` gets stream `v`.
pub proof fn lemma_sum_insert(m: Map<u32, TcpConnectStream>, k: u32, v: TcpConnectStream)
    requires
        m.dom().finite(),
    ensures
        sum_pending(m.insert(k, v)) == sum_pending(m.remove(k)) + v.pending_bytes,
        m.contains_key(k) ==> sum_pending(m) == sum_pending(m.remove(k)) + m[k].pending_bytes,
        !m.contains_key(k) ==> m.remove(k) == m,
{
    lemma_sum_remove(m.insert(k, v), k);
    assert(m.insert(k, v).remove(k) =~= m.remove(k));
    if m.contains_key(k) {
        lemma_sum_remove(m, k);
    } else {
        assert(m.remove(k) =~= m);
    }
}

/// The connect stream paired with listen stream `listen_stream_id` in
/// `pairs`.
pub open spec fn pair_of(pairs: Map<u32, u32>, listen_stream_id: u32) -> Option<u32> {
    if pairs.contains_key(listen_stream_id) { Some(pairs[listen_stream_id]) } else { None }
}

/// The stream pairs and pending budget of one TCP forward epoch.
pub struct TcpForwardState {
    listen_to_connect: HashMap<u32, u32>,
    connect_streams: HashMap<u32, TcpConnectStream>,
    pending_total: usize,
}

impl TcpForwardState {
    /// Listen stream id to connect stream id.
    pub closed spec fn pairs(&self) -> Map<u32, u32> {
        self.listen_to_connect@
    }

    /// Connect stream id to its stream.
    pub closed spec fn streams(&self) -> Map<u32, TcpConnectStream> {
        self.connect_streams@
    }

    /// Bytes held back for all connect streams that are not ready.
    pub closed spec fn pending_total(&self) -> nat {
        self.pending_total as nat
    }

    /// Each stream sits under its own connect id, and the forward's pending
    /// budget is exactly what its streams hold back.
    pub open spec fn wf(&self) -> bool {
        &&& self.streams().dom().finite()
        &&& forall|k: u32| #[trigger] self.streams().contains_key(k) ==> self.streams()[k].connect_stream_id == k
        &&& self.pending_total() == sum_pending(self.streams())
    }

    pub fn new() -> (res: Self)
        ensures
            res.wf(),
            res.pairs() == Map::<u32, u32>::empty(),
            res.streams() == Map::<u32, TcpConnectStream>::empty(),
            res.pending_total() == 0,
    {
        let res = TcpForwardState { listen_to_connect: HashMap::new(), connect_streams: HashMap::new(), pending_total: 0 };
        proof {
            assert(res.streams().len() == 0);
        }
        res
    }
}

pub open spec fn sat_usize(a: nat, b: nat) -> nat {
    if a + b > usize::MAX { usize::MAX as nat } else { a + b }
}

/// `new` is `st` with `frame` queued and its bytes counted.
pub open spec fn is_queued_stream(new: TcpConnectStream, st: TcpConnectStream, frame: Frame) -> bool {
    &&& new.connect_stream_id == st.connect_stream_id
    &&& new.listen_stream_id == st.listen_stream_id
    &&& new.ready == st.ready
    &&& new.listen_eof == st.listen_eof
    &&& new.connect_eof == st.connect_eof
    &&& new.pending_frames@ == st.pending_frames@.push(frame)
    &&& new.pending_bytes == sat_usize(st.pending_bytes as nat, spec_frame_data_bytes(frame))
}

/// `new` is `st` marked ready, with nothing held back.
pub open spec fn is_ready_stream(new: TcpConnectStream, st: TcpConnectStream) -> bool {
    &&& new.connect_stream_id == st.connect_stream_id
    &&& new.listen_stream_id == st.listen_stream_id
    &&& new.ready
    &&& new.listen_eof == st.listen_eof
    &&& new.connect_eof == st.connect_eof
    &&& new.pending_frames@.len() == 0
    &&& new.pending_bytes == 0
}

impl TcpForwardState {
    /// Puts `st` back under its own id after it was taken out; the budget
    /// follows the change of its pending bytes.
    fn put_back(&mut self, st: TcpConnectStream, total: usize)
        requires
            old(self).streams().dom().finite(),
            forall|k: u32| #[trigger] old(self).streams().contains_key(k) ==> old(self).streams()[k].connect_stream_id == k,
            !old(self).streams().contains_key(st.connect_stream_id),
            total == sum_pending(old(self).streams()) + st.pending_bytes,
        ensures
            final(self).wf(),
            final(self).streams() == old(self).streams().insert(st.connect_stream_id, st),
            final(self).pairs() == old(self).pairs(),
            final(self).pending_total() == total,
    {
        let ghost m0 = self.connect_streams@;
        proof {
            lemma_sum_insert(m0, st.connect_stream_id, st);
        }
        let _ = self.connect_streams.insert(st.connect_stream_id, st);
        self.pending_total = total;
    }

    /// Takes the stream of `connect_stream_id` out, with its share of the
    /// budget.
    fn take_out(&mut self, connect_stream_id: u32) -> (res: Option<TcpConnectStream>)
        requires
            old(self).wf(),
        ensures
            final(self).pairs() == old(self).pairs(),
            final(self).streams() == old(self).streams().remove(connect_stream_id),
            final(self).streams().dom().finite(),
            forall|k: u32| #[trigger] final(self).streams().contains_key(k) ==> final(self).streams()[k].connect_stream_id == k,
            match res {
                Some(st) => old(self).streams().contains_key(connect_stream_id) && st == old(self).streams()[connect_stream_id]
                    && final(self).pending_total() + st.pending_bytes == old(self).pending_total()
                    && final(self).pending_total() == sum_pending(final(self).streams()),
                None => !old(self).streams().contains_key(connect_stream_id) && final(self).wf()
                    && final(self).pending_total() == old(self).pending_total(),
            },
    {
        let ghost m0 = self.connect_streams@;
        match self.connect_streams.remove(&connect_stream_id) {
            Some(st) => {
                proof {
                    lemma_sum_remove(m0, connect_stream_id);
                }
                self.pending_total = self.pending_total - st.pending_bytes;
                Some(st)
            },
            None => {
                proof {
                    assert(m0.remove(connect_stream_id) =~= m0);
                }
                None
            },
        }
    }

    /// Pairs a freshly accepted listen stream with a new connect stream.
    pub fn record_tcp_stream_pair(&mut self, listen_stream_id: u32, connect_stream_id: u32)
        requires
            old(self).wf(),
            !old(self).streams().contains_key(connect_stream_id),
        ensures
            final(self).wf(),
            final(self).pending_total() == old(self).pending_total(),
            final(self).streams() == old(self).streams().insert(connect_stream_id, TcpConnectStream {
                connect_stream_id: connect_stream_id,
                listen_stream_id: listen_stream_id,
                ready: false,
                listen_eof: false,
                connect_eof: false,
                pending_frames: final(self).streams()[connect_stream_id].pending_frames,
                pending_bytes: 0,
            }),
            final(self).streams()[connect_stream_id].pending_frames@.len() == 0,
            final(self).pairs() == old(self).pairs().insert(listen_stream_id, connect_stream_id),
    {
        let _ = self.listen_to_connect.insert(listen_stream_id, connect_stream_id);
        let st = TcpConnectStream {
            connect_stream_id,
            listen_stream_id,
            ready: false,
            listen_eof: false,
            connect_eof: false,
            pending_frames: Vec::new(),
            pending_bytes: 0,
        };
        let total = self.pending_total;
        self.put_back(st, total);
    }

    /// The connect stream paired with a listen stream.
    pub fn connect_for_listen(&self, listen_stream_id: u32) -> (res: Option<u32>)
        requires
            self.wf(),
        ensures
            res == pair_of(self.pairs(), listen_stream_id),
    {
        match self.listen_to_connect.get(&listen_stream_id) {
            Some(c) => Some(*c),
            None => None,
        }
    }

    /// The listen stream of a connect stream.
    pub fn listen_for_connect(&self, connect_stream_id: u32) -> (res: Option<u32>)
        requires
            self.wf(),
        ensures
            res == if self.streams().contains_key(connect_stream_id) {
                Some(self.streams()[connect_stream_id].listen_stream_id)
            } else {
                None::<u32>
            },
    {
        match self.connect_streams.get(&connect_stream_id) {
            Some(st) => Some(st.listen_stream_id),
            None => None,
        }
    }

    /// Whether the connect stream has been acknowledged by its destination.
    pub fn stream_ready(&self, connect_stream_id: u32) -> (res: Option<bool>)
        requires
            self.wf(),
        ensures
            res == if self.streams().contains_key(connect_stream_id) {
                Some(self.streams()[connect_stream_id].ready)
            } else {
                None::<bool>
            },
    {
        match self.connect_streams.get(&connect_stream_id) {
            Some(st) => Some(st.ready),
            None => None,
        }
    }

    /// Holds `frame` back for a connect stream that is not ready yet, unless
    /// the stream's or the forward's pending budget would be exceeded.
    pub fn try_queue_pending_frame(
        &mut self,
        connect_stream_id: u32,
        frame: Frame,
        max_pending_tcp_bytes_per_stream: usize,
        max_pending_tcp_bytes_per_forward: usize,
    ) -> (res: Option<PendingQueueResult>)
        requires
            old(self).wf(),
            old(self).pending_total() + spec_frame_data_bytes(frame) <= usize::MAX,
        ensures
            final(self).wf(),
            final(self).pairs() == old(self).pairs(),
            if !old(self).streams().contains_key(connect_stream_id) {
                res is None && final(self).streams() == old(self).streams()
                    && final(self).pending_total() == old(self).pending_total()
            } else {
                let st = old(self).streams()[connect_stream_id];
                let next_stream = sat_usize(st.pending_bytes as nat, spec_frame_data_bytes(frame));
                let next_forward = sat_usize(old(self).pending_total(), spec_frame_data_bytes(frame));
                if next_stream > max_pending_tcp_bytes_per_stream || next_forward > max_pending_tcp_bytes_per_forward {
                    &&& res == Some(PendingQueueResult::LimitExceeded { listen_stream_id: st.listen_stream_id })
                    &&& final(self).streams() == old(self).streams()
                    &&& final(self).pending_total() == old(self).pending_total()
                } else {
                    &&& res == Some(PendingQueueResult::Queued)
                    &&& final(self).streams() == old(self).streams().insert(connect_stream_id, final(self).streams()[connect_stream_id])
                    &&& is_queued_stream(final(self).streams()[connect_stream_id], st, frame)
                    &&& final(self).pending_total() == next_forward
                    &&& final(self).pending_total() <= max_pending_tcp_bytes_per_forward
                }
            },
    {
        let added = frame_data_bytes(&frame);
        let (next_stream_total, listen) = match self.connect_streams.get(&connect_stream_id) {
            Some(st) => (st.pending_bytes.saturating_add(added), st.listen_stream_id),
            None => return None,
        };
        let next_forward_total = self.pending_total.saturating_add(added);
        if next_stream_total > max_pending_tcp_bytes_per_stream || next_forward_total > max_pending_tcp_bytes_per_forward {
            return Some(PendingQueueResult::LimitExceeded { listen_stream_id: listen });
        }
        let ghost m0 = self.connect_streams@;
        let mut st = match self.take_out(connect_stream_id) {
            Some(st) => st,
            None => return None,
        };
        st.pending_bytes = next_stream_total;
        st.pending_frames.push(frame);
        proof {
            assert(m0.remove(connect_stream_id).insert(connect_stream_id, st) =~= m0.insert(connect_stream_id, st));
        }
        self.put_back(st, next_forward_total);
        Some(PendingQueueResult::Queued)
    }

    /// Marks a connect stream ready and hands out what was queued for it,
    /// releasing its share of the pending budget.
    pub fn mark_ready_and_take_pending(&mut self, connect_stream_id: u32) -> (res: Option<Vec<Frame>>)
        requires
            old(self).wf(),
        ensures
            final(self).wf(),
            final(self).pairs() == old(self).pairs(),
            if !old(self).streams().contains_key(connect_stream_id) {
                res is None && final(self).streams() == old(self).streams()
                    && final(self).pending_total() == old(self).pending_total()
            } else {
                let st = old(self).streams()[connect_stream_id];
                &&& res is Some && res->0@ == st.pending_frames@
                &&& final(self).streams() == old(self).streams().insert(connect_stream_id, final(self).streams()[connect_stream_id])
                &&& is_ready_stream(final(self).streams()[connect_stream_id], st)
                &&& final(self).pending_total() == old(self).pending_total() - st.pending_bytes
            },
    {
        let ghost m0 = self.connect_streams@;
        let mut st = match self.take_out(connect_stream_id) {
            Some(st) => st,
            None => return None,
        };
        let mut pending: Vec<Frame> = Vec::new();
        std::mem::swap(&mut pending, &mut st.pending_frames);
        st.pending_bytes = 0;
        st.ready = true;
        let total = self.pending_total;
        proof {
            assert(m0.remove(connect_stream_id).insert(connect_stream_id, st) =~= m0.insert(connect_stream_id, st));
        }
        self.put_back(st, total);
        Some(pending)
    }

    /// Forgets the pairing of a listen stream and returns its connect stream.
    pub fn remove_listen_pair(&mut self, listen_stream_id: u32) -> (res: Option<u32>)
        requires
            old(self).wf(),
        ensures
            final(self).wf(),
            final(self).streams() == old(self).streams(),
            final(self).pending_total() == old(self).pending_total(),
            res == pair_of(old(self).pairs(), listen_stream_id),
            final(self).pairs() == old(self).pairs().remove(listen_stream_id),
    {
        self.listen_to_connect.remove(&listen_stream_id)
    }

    /// Removes a connect stream, releases what it held of the pending
    /// budget and forgets the pairing of its listen stream.
    pub fn remove_stream_entry(&mut self, connect_stream_id: u32) -> (res: Option<TcpConnectStream>)
        requires
            old(self).wf(),
        ensures
            final(self).wf(),
            final(self).streams() == old(self).streams().remove(connect_stream_id),
            if !old(self).streams().contains_key(connect_stream_id) {
                res is None && final(self).pairs() == old(self).pairs()
                    && final(self).pending_total() == old(self).pending_total()
            } else {
                let st = old(self).streams()[connect_stream_id];
                &&& res is Some
                &&& res->0.connect_stream_id == st.connect_stream_id
                &&& res->0.listen_stream_id == st.listen_stream_id
                &&& res->0.ready == st.ready
                &&& res->0.listen_eof == st.listen_eof
                &&& res->0.connect_eof == st.connect_eof
                &&& res->0.pending_frames@ == st.pending_frames@
                &&& res->0.pending_bytes == 0
                &&& final(self).pending_total() == old(self).pending_total() - st.pending_bytes
                &&& final(self).pairs() == old(self).pairs().remove(st.listen_stream_id)
            },
    {
        let mut st = match self.take_out(connect_stream_id) {
            Some(st) => st,
            None => return None,
        };
        st.pending_bytes = 0;
        let _ = self.listen_to_connect.remove(&st.listen_stream_id);
        Some(st)
    }

    /// Sets the end-of-stream flags of the stream of `connect_stream_id`.
    fn set_flags(&mut self, connect_stream_id: u32, listen_eof: bool, connect_eof: bool)
        requires
            old(self).wf(),
            old(self).streams().contains_key(connect_stream_id),
        ensures
            final(self).wf(),
            final(self).pairs() == old(self).pairs(),
            final(self).pending_total() == old(self).pending_total(),
            final(self).streams() == old(self).streams().insert(connect_stream_id, TcpConnectStream {
                listen_eof: listen_eof,
                connect_eof: connect_eof,
                ..old(self).streams()[connect_stream_id]
            }),
    {
        let ghost m0 = self.connect_streams@;
        let mut st = match self.take_out(connect_stream_id) {
            Some(st) => st,
            None => return,
        };
        st.listen_eof = listen_eof;
        st.connect_eof = connect_eof;
        let total = self.pending_total + st.pending_bytes;
        proof {
            assert(m0.remove(connect_stream_id).insert(connect_stream_id, st) =~= m0.insert(connect_stream_id, st));
        }
        self.put_back(st, total);
    }

    /// Notes that the listen side of a pair reached end of stream.
    pub fn mark_listen_eof(&mut self, connect_stream_id: u32) -> (res: bool)
        requires
            old(self).wf(),
        ensures
            final(self).wf(),
            final(self).pairs() == old(self).pairs(),
            final(self).pending_total() == old(self).pending_total(),
            res == old(self).streams().contains_key(connect_stream_id),
            final(self).streams() == if res {
                old(self).streams().insert(connect_stream_id, TcpConnectStream { listen_eof: true, ..old(self).streams()[connect_stream_id] })
            } else {
                old(self).streams()
            },
    {
        let connect_eof = match self.connect_streams.get(&connect_stream_id) {
            Some(st) => st.connect_eof,
            None => return false,
        };
        self.set_flags(connect_stream_id, true, connect_eof);
        true
    }

    /// Notes that the connect side reached end of stream; returns the
    /// listen stream to relay it to.
    pub fn mark_connect_eof(&mut self, connect_stream_id: u32) -> (res: Option<u32>)
        requires
            old(self).wf(),
        ensures
            final(self).wf(),
            final(self).pairs() == old(self).pairs(),
            final(self).pending_total() == old(self).pending_total(),
            if old(self).streams().contains_key(connect_stream_id) {
                &&& res == Some(old(self).streams()[connect_stream_id].listen_stream_id)
                &&& final(self).streams() == old(self).streams().insert(
                    connect_stream_id,
                    TcpConnectStream { connect_eof: true, ..old(self).streams()[connect_stream_id] },
                )
            } else {
                res is None && final(self).streams() == old(self).streams()
            },
    {
        let (listen_eof, listen) = match self.connect_streams.get(&connect_stream_id) {
            Some(st) => (st.listen_eof, st.listen_stream_id),
            None => return None,
        };
        self.set_flags(connect_stream_id, listen_eof, true);
        Some(listen)
    }

    /// Whether both directions of the pair reached end of stream.
    pub fn is_fully_eof(&self, connect_stream_id: u32) -> (res: Option<bool>)
        requires
            self.wf(),
        ensures
            res == if self.streams().contains_key(connect_stream_id) {
                Some(self.streams()[connect_stream_id].listen_eof && self.streams()[connect_stream_id].connect_eof)
            } else {
                None::<bool>
            },
    {
        match self.connect_streams.get(&connect_stream_id) {
            Some(st) => Some(st.listen_eof && st.connect_eof),
            None => None,
        }
    }

    /// Drops a connect stream whose pending frames were already flushed.
    pub fn forget_flushed_stream(&mut self, connect_stream_id: u32)
        requires
            old(self).wf(),
            old(self).streams().contains_key(connect_stream_id) ==> old(self).streams()[connect_stream_id].pending_bytes == 0,
        ensures
            final(self).wf(),
            final(self).pairs() == old(self).pairs(),
            final(self).pending_total() == old(self).pending_total(),
            final(self).streams() == old(self).streams().remove(connect_stream_id),
    {
        let _ = self.take_out(connect_stream_id);
    }

    /// Takes every connect stream out (when the connect tunnel is lost),
    /// clearing the pairings and the whole pending budget. Each stream
    /// comes out once, in no particular order, with nothing held back.
    pub fn take_all_streams(&mut self) -> (res: Vec<TcpConnectStream>)
        requires
            old(self).wf(),
        ensures
            final(self).wf(),
            final(self).streams() == Map::<u32, TcpConnectStream>::empty(),
            final(self).pairs() == Map::<u32, u32>::empty(),
            final(self).pending_total() == 0,
            res@.len() == old(self).streams().len(),
            forall|i: int, j: int| 0 <= i < j < res@.len() ==> #[trigger] res@[i].connect_stream_id != #[trigger] res@[j].connect_stream_id,
            forall|k: int| 0 <= k < res@.len() ==> {
                let a = #[trigger] res@[k];
                let b = old(self).streams()[a.connect_stream_id];
                &&& old(self).streams().contains_key(a.connect_stream_id)
                &&& a.listen_stream_id == b.listen_stream_id
                &&& a.ready == b.ready
                &&& a.pending_frames@ == b.pending_frames@
                &&& a.pending_bytes == 0
            },
    {
        let ghost m0 = self.connect_streams@;
        let mut ids: Vec<u32> = Vec::new();
        for id in it: self.connect_streams.keys()
            invariant
                ids@ == it.seq().take(it.index()).unref(),
        {
            proof {
                assert(it.seq().take(it.index() + 1).unref() =~= it.seq().take(it.index()).unref().push(*id));
            }
            ids.push(*id);
        }
        let ghost ks = ids@;
        proof {
            assert(ks =~= vstd::std_specs::iter::IteratorSpec::remaining(&vstd::std_specs::hash::spec_keys_iter(&self.connect_streams)).unref());
            assert(ks.to_set() == m0.dom());
            assert(ks.no_duplicates());
        }
        let mut taken: HashMap<u32, TcpConnectStream> = HashMap::new();
        std::mem::swap(&mut taken, &mut self.connect_streams);
        let mut out: Vec<TcpConnectStream> = Vec::new();
        let mut i: usize = 0;
        while i < ids.len()
            invariant
                ids@ == ks,
                ks.to_set() == m0.dom(),
                ks.no_duplicates(),
                ks.len() == m0.len(),
                forall|k: u32| #[trigger] m0.contains_key(k) ==> m0[k].connect_stream_id == k,
                i <= ks.len(),
                taken@ == m0.remove_keys(ks.take(i as int).to_set()),
                out@.len() == i,
                forall|k: int| 0 <= k < i ==> {
                    let a = #[trigger] out@[k];
                    let b = m0[ks[k]];
                    &&& m0.contains_key(ks[k])
                    &&& a.connect_stream_id == ks[k]
                    &&& a.listen_stream_id == b.listen_stream_id
                    &&& a.ready == b.ready
                    &&& a.pending_frames@ == b.pending_frames@
                    &&& a.pending_bytes == 0
                },
            decreases ks.len() - i,
        {
            let id = ids[i];
            proof {
                assert(ks.to_set().contains(ks[i as int]));
                assert(!ks.take(i as int).to_set().contains(id)) by {
                    if ks.take(i as int).to_set().contains(id) {
                        let j = choose|j: int| 0 <= j < i && ks.take(i as int)[j] == id;
                        assert(ks[j] == ks[i as int]);
                    }
                }
                assert(taken@.contains_key(id));
            }
            let ghost t0 = taken@;
            match taken.remove(&id) {
                Some(mut st) => {
                    st.pending_bytes = 0;
                    out.push(st);
                },
                None => {},
            }
            proof {
                let before = ks.take(i as int);
                let after = ks.take(i + 1);
                assert forall|x: u32| after.to_set().contains(x) <==> before.to_set().insert(id).contains(x) by {
                    if after.contains(x) {
                        let j = choose|j: int| 0 <= j < after.len() && after[j] == x;
                        if j < i {
                            assert(before[j] == x);
                        }
                    }
                    if before.contains(x) {
                        let j = choose|j: int| 0 <= j < before.len() && before[j] == x;
                        assert(after[j] == x);
                    }
                    if x == id {
                        assert(after[i as int] == x);
                    }
                }
                assert(after.to_set() =~= before.to_set().insert(id));
                assert(taken@ =~= m0.remove_keys(ks.take(i + 1).to_set()));
            }
            i = i + 1;
        }
        proof {
            assert(ks.len() == m0.dom().len()) by {
                ks.unique_seq_to_set();
            }
            assert forall|x: int, y: int| 0 <= x < y < out@.len() implies
                #[trigger] out@[x].connect_stream_id != #[trigger] out@[y].connect_stream_id by {
                assert(ks[x] != ks[y]);
            }
            assert(self.connect_streams@ =~= Map::<u32, TcpConnectStream>::empty());
        }
        self.listen_to_connect = HashMap::new();
        self.pending_total = 0;
        out
    }

} // impl

} // verus!
