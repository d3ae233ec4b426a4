//! The connect side's UDP connectors of one forward: one tunnel stream per
//! UDP peer, found by peer address or by stream id, and dropped when idle.
//! Times are milliseconds on the caller's monotonic clock.
use std::collections::HashMap;
use vstd::prelude::*;

use super::generation::{allocate_step, StreamIdAllocator};
use crate::assoc::{assoc_map, keys_unique, lemma_assoc_absent, lemma_assoc_index, lemma_assoc_len, lemma_assoc_remove, lemma_assoc_update};
use crate::text::str_eq;

verus! {

/// The stream that carries one peer's datagrams, and when it was last used.
#[derive(Debug, Clone, Copy, PartialEq, Eq, Structural)]
pub struct UdpPeerConnector {
    pub stream_id: u32,
    pub last_used_ms: u64,
}

/// Whether a connector has been idle for at least `idle_ms` at `now_ms`
/// (a clock reading before its last use counts as no time passed).
pub open spec fn is_idle(c: UdpPeerConnector, now_ms: u64, idle_ms: u64) -> bool {
    (if now_ms >= c.last_used_ms { now_ms - c.last_used_ms } else { 0 }) >= idle_ms
}

/// The idle connectors of `s`, in order, each with its stream id.
pub open spec fn idle_connectors(s: Seq<(Seq<char>, UdpPeerConnector)>, now_ms: u64, idle_ms: u64) -> Seq<(u32, UdpPeerConnector)>
    decreases s.len(),
{
    if s.len() == 0 {
        Seq::empty()
    } else {
        let rest = idle_connectors(s.drop_last(), now_ms, idle_ms);
        if is_idle(s.last().1, now_ms, idle_ms) { rest.push((s.last().1.stream_id, s.last().1)) } else { rest }
    }
}

/// The peers of `s` whose connectors are idle.
pub open spec fn idle_peers(s: Seq<(Seq<char>, UdpPeerConnector)>, now_ms: u64, idle_ms: u64) -> Set<Seq<char>> {
    Set::new(|p: Seq<char>| exists|i: int| 0 <= i < s.len() && (#[trigger] s[i]).0 == p && is_idle(s[i].1, now_ms, idle_ms))
}

/// The stream ids of the idle connectors of `s`.
pub open spec fn idle_stream_ids(s: Seq<(Seq<char>, UdpPeerConnector)>, now_ms: u64, idle_ms: u64) -> Set<u32> {
    Set::new(|id: u32| exists|i: int| 0 <= i < s.len() && (#[trigger] s[i]).1.stream_id == id && is_idle(s[i].1, now_ms, idle_ms))
}

/// Peer names of `entries` as views.
pub open spec fn peer_view(entries: Seq<(String, UdpPeerConnector)>) -> Seq<(Seq<char>, UdpPeerConnector)> {
    entries.map_values(|e: (String, UdpPeerConnector)| (e.0@, e.1))
}

/// The position of `peer` in `entries`, if it is there.
fn find_peer(entries: &Vec<(String, UdpPeerConnector)>, peer: &str) -> (res: Option<usize>)
    ensures
        match res {
            Some(i) => i < entries@.len() && peer_view(entries@)[i as int].0 == peer@,
            None => forall|j: int| 0 <= j < entries@.len() ==> (#[trigger] peer_view(entries@)[j]).0 != peer@,
        },
{
    let mut i: usize = 0;
    while i < entries.len()
        invariant
            i <= entries@.len(),
            forall|j: int| 0 <= j < i ==> (#[trigger] peer_view(entries@)[j]).0 != peer@,
        decreases entries@.len() - i,
    {
        if str_eq(entries[i].0.as_str(), peer) {
            return Some(i);
        }
        i = i + 1;
    }
    None
}

/// The connectors of one forward, by peer and by stream id.
pub struct UdpConnectorMap {
    connector_by_peer: Vec<(String, UdpPeerConnector)>,
    peer_by_connector: HashMap<u32, String>,
}

impl UdpConnectorMap {
    /// The connectors in the order they were added.
    pub closed spec fn by_peer(&self) -> Seq<(Seq<char>, UdpPeerConnector)> {
        peer_view(self.connector_by_peer@)
    }

    /// Connector of each peer.
    pub open spec fn connectors(&self) -> Map<Seq<char>, UdpPeerConnector> {
        assoc_map(self.by_peer())
    }

    /// Peer of each stream id.
    pub closed spec fn peers(&self) -> Map<u32, Seq<char>> {
        self.peer_by_connector@.map_values(|s: String| s@)
    }

    /// No peer has two connectors; every map keeps this at all times.
    #[verifier::type_invariant]
    pub open spec fn wf(self) -> bool {
        keys_unique(self.by_peer())
    }

    pub fn new() -> (res: Self)
        ensures
            res.connectors() == Map::<Seq<char>, UdpPeerConnector>::empty(),
            res.peers() == Map::<u32, Seq<char>>::empty(),
            res.by_peer().len() == 0,
    {
        let res = UdpConnectorMap { connector_by_peer: Vec::new(), peer_by_connector: HashMap::new() };
        proof {
            assert(res.by_peer() =~= Seq::<(Seq<char>, UdpPeerConnector)>::empty());
            assert(res.peers() =~= Map::<u32, Seq<char>>::empty());
        }
        res
    }

    /// Number of peers with a connector.
    pub fn len(&self) -> (res: usize)
        ensures
            res == self.connectors().len(),
            res == self.by_peer().len(),
    {
        proof {
            use_type_invariant(self);
            lemma_assoc_len(self.by_peer());
        }
        self.connector_by_peer.len()
    }

    /// The connector of `peer`, marked used at `now_ms`; its stream id.
    pub fn refresh(&mut self, peer: &str, now_ms: u64) -> (res: Option<u32>)
        ensures
            final(self).peers() == old(self).peers(),
            if old(self).connectors().contains_key(peer@) {
                &&& res == Some(old(self).connectors()[peer@].stream_id)
                &&& final(self).connectors() == old(self).connectors().insert(
                    peer@,
                    UdpPeerConnector { last_used_ms: now_ms, ..old(self).connectors()[peer@] },
                )
            } else {
                res is None && final(self).connectors() == old(self).connectors()
            },
    {
        proof {
            use_type_invariant(&*self);
        }
        let mut entries: Vec<(String, UdpPeerConnector)> = Vec::new();
        std::mem::swap(&mut entries, &mut self.connector_by_peer);
        let ghost s = peer_view(entries@);
        let res = match find_peer(&entries, peer) {
            None => {
                proof {
                    lemma_assoc_absent(s, peer@);
                }
                None
            },
            Some(i) => {
                proof {
                    lemma_assoc_index(s, i as int);
                }
                let stream_id = entries[i].1.stream_id;
                let name = entries[i].0.clone();
                let updated = UdpPeerConnector { stream_id, last_used_ms: now_ms };
                entries.set(i, (name, updated));
                proof {
                    assert(peer_view(entries@) =~= s.update(i as int, (s[i as int].0, updated)));
                    lemma_assoc_update(s, i as int, updated);
                    assert forall|a: int, b: int| 0 <= a < b < peer_view(entries@).len()
                        implies (#[trigger] peer_view(entries@)[a]).0 != (#[trigger] peer_view(entries@)[b]).0 by {
                        assert(peer_view(entries@)[a].0 == s[a].0);
                        assert(peer_view(entries@)[b].0 == s[b].0);
                    }
                }
                Some(stream_id)
            },
        };
        self.connector_by_peer = entries;
        res
    }

    /// Records `connector` for `peer` and `peer` for `stream_id`.
    pub fn insert(&mut self, peer: String, stream_id: u32, connector: UdpPeerConnector)
        ensures
            final(self).connectors() == old(self).connectors().insert(peer@, connector),
            final(self).peers() == old(self).peers().insert(stream_id, peer@),
    {
        proof {
            use_type_invariant(&*self);
        }
        let ghost ids = self.peers();
        let mut peers: HashMap<u32, String> = HashMap::new();
        std::mem::swap(&mut peers, &mut self.peer_by_connector);
        let _ = peers.insert(stream_id, peer.clone());
        self.peer_by_connector = peers;
        proof {
            assert(self.peers() =~= ids.insert(stream_id, peer@));
        }
        let mut entries: Vec<(String, UdpPeerConnector)> = Vec::new();
        std::mem::swap(&mut entries, &mut self.connector_by_peer);
        let ghost s = peer_view(entries@);
        match find_peer(&entries, peer.as_str()) {
            Some(i) => {
                proof {
                    lemma_assoc_index(s, i as int);
                }
                entries.set(i, (peer, connector));
                proof {
                    assert(peer_view(entries@) =~= s.update(i as int, (s[i as int].0, connector)));
                    lemma_assoc_update(s, i as int, connector);
                    assert forall|a: int, b: int| 0 <= a < b < peer_view(entries@).len()
                        implies (#[trigger] peer_view(entries@)[a]).0 != (#[trigger] peer_view(entries@)[b]).0 by {
                        assert(peer_view(entries@)[a].0 == s[a].0);
                        assert(peer_view(entries@)[b].0 == s[b].0);
                    }
                }
            },
            None => {
                let ghost pv = peer@;
                entries.push((peer, connector));
                proof {
                    assert(peer_view(entries@) =~= s.push((pv, connector)));
                    assert(peer_view(entries@).drop_last() =~= s);
                }
            },
        }
        self.connector_by_peer = entries;
    }

    /// The peer whose connector uses `stream_id`.
    pub fn peer_for_stream_id(&self, stream_id: u32) -> (res: Option<String>)
        ensures
            match res {
                Some(p) => self.peers().contains_key(stream_id) && p@ == self.peers()[stream_id],
                None => !self.peers().contains_key(stream_id),
            },
    {
        match self.peer_by_connector.get(&stream_id) {
            Some(p) => Some(p.clone()),
            None => None,
        }
    }

    /// Forgets the connector of `stream_id`, by both of its keys.
    pub fn remove_by_stream_id(&mut self, stream_id: u32) -> (res: Option<UdpPeerConnector>)
        ensures
            if old(self).peers().contains_key(stream_id) {
                let peer = old(self).peers()[stream_id];
                &&& final(self).peers() == old(self).peers().remove(stream_id)
                &&& final(self).connectors() == old(self).connectors().remove(peer)
                &&& res == if old(self).connectors().contains_key(peer) {
                    Some(old(self).connectors()[peer])
                } else {
                    None::<UdpPeerConnector>
                }
            } else {
                &&& res is None
                &&& final(self).peers() == old(self).peers()
                &&& final(self).connectors() == old(self).connectors()
            },
    {
        proof {
            use_type_invariant(&*self);
        }
        let ghost ids = self.peers();
        let mut peers: HashMap<u32, String> = HashMap::new();
        std::mem::swap(&mut peers, &mut self.peer_by_connector);
        let removed = peers.remove(&stream_id);
        self.peer_by_connector = peers;
        let Some(peer) = removed else {
            proof {
                assert(self.peers() =~= ids);
            }
            return None;
        };
        proof {
            assert(self.peers() =~= ids.remove(stream_id));
        }
        let mut entries: Vec<(String, UdpPeerConnector)> = Vec::new();
        std::mem::swap(&mut entries, &mut self.connector_by_peer);
        let ghost s = peer_view(entries@);
        let res = match find_peer(&entries, peer.as_str()) {
            Some(j) => {
                proof {
                    lemma_assoc_index(s, j as int);
                    lemma_assoc_remove(s, j as int);
                }
                let (_, c) = entries.remove(j);
                proof {
                    assert(peer_view(entries@) =~= s.remove(j as int));
                }
                Some(c)
            },
            None => {
                proof {
                    lemma_assoc_absent(s, peer@);
                    assert(assoc_map(s).remove(peer@) =~= assoc_map(s));
                }
                None
            },
        };
        self.connector_by_peer = entries;
        res
    }

    /// Removes every connector idle for at least `idle_ms` at `now_ms`,
    /// with its stream id, and hands them back in the order they were added.
    pub fn sweep_idle(&mut self, now_ms: u64, idle_ms: u64) -> (res: Vec<(u32, UdpPeerConnector)>)
        ensures
            res@ == idle_connectors(old(self).by_peer(), now_ms, idle_ms),
            final(self).connectors() == old(self).connectors().remove_keys(idle_peers(old(self).by_peer(), now_ms, idle_ms)),
            final(self).peers() == old(self).peers().remove_keys(idle_stream_ids(old(self).by_peer(), now_ms, idle_ms)),
    {
        proof {
            use_type_invariant(&*self);
        }
        let ghost s0 = self.by_peer();
        let ghost ids0 = self.peers();
        let mut kept: Vec<(String, UdpPeerConnector)> = Vec::new();
        let mut removed: Vec<(u32, UdpPeerConnector)> = Vec::new();
        let mut old_entries: Vec<(String, UdpPeerConnector)> = Vec::new();
        std::mem::swap(&mut old_entries, &mut self.connector_by_peer);
        let ghost entries = old_entries@;
        let mut i: usize = 0;
        while i < old_entries.len()
            invariant
                old_entries@ == entries,
                s0 == entries.map_values(|e: (String, UdpPeerConnector)| (e.0@, e.1)),
                keys_unique(s0),
                i <= entries.len(),
                removed@ == idle_connectors(s0.take(i as int), now_ms, idle_ms),
                keys_unique(kept@.map_values(|e: (String, UdpPeerConnector)| (e.0@, e.1))),
                assoc_map(kept@.map_values(|e: (String, UdpPeerConnector)| (e.0@, e.1)))
                    == assoc_map(s0.take(i as int)).remove_keys(idle_peers(s0, now_ms, idle_ms)),
                forall|k: int| 0 <= k < kept@.len() ==> exists|j: int| 0 <= j < i && (#[trigger] kept@[k]).0@ == s0[j].0,
            decreases entries.len() - i,
        {
            let peer = old_entries[i].0.clone();
            let c = old_entries[i].1;
            let ghost prev = kept@.map_values(|e: (String, UdpPeerConnector)| (e.0@, e.1));
            proof {
                assert(s0.take(i + 1).drop_last() =~= s0.take(i as int));
                assert(s0.take(i + 1).last() == s0[i as int]);
                assert(s0[i as int] == (peer@, c));
            }
            let elapsed = if now_ms >= c.last_used_ms { now_ms - c.last_used_ms } else { 0 };
            if elapsed >= idle_ms {
                removed.push((c.stream_id, c));
                proof {
                    assert(idle_peers(s0, now_ms, idle_ms).contains(peer@));
                    assert(assoc_map(s0.take(i + 1)).remove_keys(idle_peers(s0, now_ms, idle_ms))
                        =~= assoc_map(s0.take(i as int)).remove_keys(idle_peers(s0, now_ms, idle_ms)));
                }
            } else {
                let ghost pv = peer@;
                kept.push((peer, c));
                proof {
                    let now = kept@.map_values(|e: (String, UdpPeerConnector)| (e.0@, e.1));
                    assert(now =~= prev.push((pv, c)));
                    assert(now.drop_last() =~= prev);
                    assert(!idle_peers(s0, now_ms, idle_ms).contains(pv)) by {
                        if idle_peers(s0, now_ms, idle_ms).contains(pv) {
                            let j = choose|j: int| 0 <= j < s0.len() && (#[trigger] s0[j]).0 == pv && is_idle(s0[j].1, now_ms, idle_ms);
                            assert(j == i);
                        }
                    }
                    assert forall|a: int, b: int| 0 <= a < b < now.len()
                        implies (#[trigger] now[a]).0 != (#[trigger] now[b]).0 by {
                        if b == now.len() - 1 {
                            let j = choose|j: int| 0 <= j < i && (#[trigger] kept@[a]).0@ == s0[j].0;
                            assert(now[a].0 == kept@[a].0@);
                        } else {
                            assert(now[a] == prev[a]);
                            assert(now[b] == prev[b]);
                        }
                    }
                    assert forall|k: int| 0 <= k < kept@.len()
                        implies exists|j: int| 0 <= j < i + 1 && (#[trigger] kept@[k]).0@ == s0[j].0 by {
                        if k == kept@.len() - 1 {
                            assert(kept@[k].0@ == s0[i as int].0);
                        } else {
                            let j = choose|j: int| 0 <= j < i && (#[trigger] kept@[k]).0@ == s0[j].0;
                            assert(kept@[k].0@ == s0[j].0);
                        }
                    }
                    assert(assoc_map(s0.take(i + 1)).remove_keys(idle_peers(s0, now_ms, idle_ms))
                        =~= assoc_map(s0.take(i as int)).remove_keys(idle_peers(s0, now_ms, idle_ms)).insert(pv, c));
                }
            }
            i = i + 1;
        }
        proof {
            assert(s0.take(i as int) =~= s0);
        }
        self.connector_by_peer = kept;
        let mut peers: HashMap<u32, String> = HashMap::new();
        std::mem::swap(&mut peers, &mut self.peer_by_connector);
        let mut k: usize = 0;
        while k < removed.len()
            invariant
                removed@ == idle_connectors(s0, now_ms, idle_ms),
                k <= removed@.len(),
                peers@.map_values(|s: String| s@) == ids0.remove_keys(
                    Set::new(|id: u32| exists|j: int| 0 <= j < k && (#[trigger] removed@[j]).0 == id),
                ),
            decreases removed@.len() - k,
        {
            let id = removed[k].0;
            let ghost before = peers@.map_values(|s: String| s@);
            let _ = peers.remove(&id);
            proof {
                assert(peers@.map_values(|s: String| s@) =~= before.remove(id));
                assert(peers@.map_values(|s: String| s@) =~= ids0.remove_keys(
                    Set::new(|x: u32| exists|j: int| 0 <= j < k + 1 && (#[trigger] removed@[j]).0 == x),
                ));
            }
            k = k + 1;
        }
        self.peer_by_connector = peers;
        proof {
            lemma_idle_ids(s0, now_ms, idle_ms);
            assert(Set::new(|x: u32| exists|j: int| 0 <= j < k && (#[trigger] removed@[j]).0 == x)
                =~= idle_stream_ids(s0, now_ms, idle_ms));
        }
        removed
    }
}

/// The stream ids among the idle connectors are those of `idle_connectors`.
proof fn lemma_idle_ids(s: Seq<(Seq<char>, UdpPeerConnector)>, now_ms: u64, idle_ms: u64)
    ensures
        forall|id: u32| (exists|j: int| 0 <= j < idle_connectors(s, now_ms, idle_ms).len()
            && (#[trigger] idle_connectors(s, now_ms, idle_ms)[j]).0 == id)
            <==> idle_stream_ids(s, now_ms, idle_ms).contains(id),
    decreases s.len(),
{
    if s.len() > 0 {
        let t = s.drop_last();
        lemma_idle_ids(t, now_ms, idle_ms);
        let r = idle_connectors(s, now_ms, idle_ms);
        let rt = idle_connectors(t, now_ms, idle_ms);
        assert forall|id: u32| (exists|j: int| 0 <= j < r.len() && (#[trigger] r[j]).0 == id)
            <==> idle_stream_ids(s, now_ms, idle_ms).contains(id) by {
            if exists|j: int| 0 <= j < r.len() && (#[trigger] r[j]).0 == id {
                let j = choose|j: int| 0 <= j < r.len() && (#[trigger] r[j]).0 == id;
                if j < rt.len() {
                    assert(rt[j] == r[j]);
                    assert(idle_stream_ids(t, now_ms, idle_ms).contains(id));
                    let k = choose|k: int| 0 <= k < t.len() && (#[trigger] t[k]).1.stream_id == id && is_idle(t[k].1, now_ms, idle_ms);
                    assert(s[k] == t[k]);
                } else {
                    assert(s[s.len() - 1].1.stream_id == id);
                }
            }
            if idle_stream_ids(s, now_ms, idle_ms).contains(id) {
                let k = choose|k: int| 0 <= k < s.len() && (#[trigger] s[k]).1.stream_id == id && is_idle(s[k].1, now_ms, idle_ms);
                if k < t.len() {
                    assert(t[k] == s[k]);
                    assert(idle_stream_ids(t, now_ms, idle_ms).contains(id));
                    let j = choose|j: int| 0 <= j < rt.len() && (#[trigger] rt[j]).0 == id;
                    assert(r[j] == rt[j]);
                } else {
                    assert(r[r.len() - 1].0 == id);
                }
            }
        }
    }
}

/// How the connect side serves a peer's datagram.
#[derive(Debug, Clone, Copy, PartialEq, Eq, Structural)]
pub enum UdpConnectorChoice {
    /// The peer has a connector on this stream.
    Existing(u32),
    /// The peer needs a new connector on this fresh stream; bind it, then
    /// record it with `insert`.
    Allocated(u32),
}

/// Why a peer cannot get a connector.
#[derive(Debug, Clone, Copy, PartialEq, Eq, Structural)]
pub enum UdpConnectorError {
    /// The forward already serves its limit of peers.
    LimitExceeded,
    /// The tunnel generation has run out of stream ids.
    StreamIdsExhausted,
}

/// The stream on which `peer`'s datagram goes out: the peer's connector,
/// refreshed at `now_ms`, or else a fresh stream id while the forward serves
/// fewer than `max_udp_peers` peers.
pub fn udp_connector_stream_id(
    connectors: &mut UdpConnectorMap,
    stream_ids: &mut StreamIdAllocator,
    peer: &str,
    max_udp_peers: usize,
    now_ms: u64,
) -> (res: Result<UdpConnectorChoice, UdpConnectorError>)
    ensures
        final(connectors).peers() == old(connectors).peers(),
        if old(connectors).connectors().contains_key(peer@) {
            &&& res == Ok::<UdpConnectorChoice, UdpConnectorError>(UdpConnectorChoice::Existing(old(connectors).connectors()[peer@].stream_id))
            &&& final(connectors).connectors() == old(connectors).connectors().insert(
                peer@,
                UdpPeerConnector { last_used_ms: now_ms, ..old(connectors).connectors()[peer@] },
            )
            &&& final(stream_ids)@ == old(stream_ids)@
        } else {
            &&& final(connectors).connectors() == old(connectors).connectors()
            &&& if old(connectors).connectors().len() >= max_udp_peers {
                res == Err::<UdpConnectorChoice, UdpConnectorError>(UdpConnectorError::LimitExceeded)
                    && final(stream_ids)@ == old(stream_ids)@
            } else {
                let (next, id) = allocate_step(old(stream_ids)@);
                &&& final(stream_ids)@ == next
                &&& match id {
                    Some(v) => res == Ok::<UdpConnectorChoice, UdpConnectorError>(UdpConnectorChoice::Allocated(v)),
                    None => res == Err::<UdpConnectorChoice, UdpConnectorError>(UdpConnectorError::StreamIdsExhausted),
                }
            }
        },
{
    if let Some(stream_id) = connectors.refresh(peer, now_ms) {
        return Ok(UdpConnectorChoice::Existing(stream_id));
    }
    if connectors.len() >= max_udp_peers {
        return Err(UdpConnectorError::LimitExceeded);
    }
    match stream_ids.next() {
        Some(stream_id) => Ok(UdpConnectorChoice::Allocated(stream_id)),
        None => Err(UdpConnectorError::StreamIdsExhausted),
    }
}

/// Forgetting, by its stream id, a connector just added for a new peer on
/// a new stream leaves both maps as they were before.
pub proof fn lemma_remove_by_stream_id_undoes_insert(
    connectors: Map<Seq<char>, UdpPeerConnector>,
    peers: Map<u32, Seq<char>>,
    peer: Seq<char>,
    stream_id: u32,
    connector: UdpPeerConnector,
)
    requires
        !connectors.contains_key(peer),
        !peers.contains_key(stream_id),
    ensures
        ({
            let c1 = connectors.insert(peer, connector);
            let p1 = peers.insert(stream_id, peer);
            &&& p1.contains_key(stream_id) && p1[stream_id] == peer
            &&& p1.remove(stream_id) == peers
            &&& c1.remove(p1[stream_id]) == connectors
            &&& c1[p1[stream_id]] == connector
        }),
{
    assert(peers.insert(stream_id, peer).remove(stream_id) =~= peers);
    assert(connectors.insert(peer, connector).remove(peer) =~= connectors);
}

} // verus!
