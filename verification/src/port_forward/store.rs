//! The broker's table of open port forwards: lookup by forward id, the
//! reconnecting-forward limit and the state changes of each forward.
use vstd::prelude::*;

use super::entry::{
    closed_entry, failed_entry, is_reconnecting, is_reconnecting_entry, mark_entry_failed,
    spec_closed_entry, spec_derive_phase, derive_phase, ForwardPortEntry, ForwardPortPhase,
    ForwardPortSideHealth, ForwardPortSideRole, ForwardPortSideState, ForwardPortStatus,
    side_with_health,
};
use crate::text::{lemma_lt_from_irreflexive, seq_lt, str_lt, lemma_seq_lt_is_strict_total_order};

verus! {

/// Last error a forward reports when the broker's reconnect limit is hit.
pub open spec fn reconnect_limit_exceeded_text() -> Seq<char> {
    "port_forward_limit_exceeded: broker reconnecting forward limit reached"@
}

pub fn reconnect_limit_exceeded_message() -> (res: String)
    ensures
        res@ == reconnect_limit_exceeded_text(),
{
    String::from_str("port_forward_limit_exceeded: broker reconnecting forward limit reached")
}

/// One forward in the store: its public entry and what closes it.
pub struct PortForwardRecord<H> {
    pub entry: ForwardPortEntry,
    pub close_handle: H,
}

pub open spec fn id_of<H>(r: PortForwardRecord<H>) -> Seq<char> {
    r.entry.forward_id@
}

/// Records sorted strictly by forward id (so no id occurs twice).
pub open spec fn sorted_by_id<H>(s: Seq<PortForwardRecord<H>>) -> bool {
    forall|i: int, j: int| 0 <= i < j < s.len() ==> seq_lt(#[trigger] id_of(s[i]), #[trigger] id_of(s[j]))
}

/// Entries sorted strictly by forward id.
pub open spec fn entries_sorted_by_id(s: Seq<ForwardPortEntry>) -> bool {
    forall|i: int, j: int| 0 <= i < j < s.len() ==> seq_lt(#[trigger] s[i].forward_id@, #[trigger] s[j].forward_id@)
}

pub open spec fn has_id<H>(s: Seq<PortForwardRecord<H>>, k: Seq<char>) -> bool {
    exists|i: int| 0 <= i < s.len() && id_of(#[trigger] s[i]) == k
}

/// The records keyed by forward id.
pub open spec fn record_map<H>(s: Seq<PortForwardRecord<H>>) -> Map<Seq<char>, PortForwardRecord<H>> {
    Map::new(
        |k: Seq<char>| has_id(s, k),
        |k: Seq<char>| s[choose|i: int| 0 <= i < s.len() && id_of(#[trigger] s[i]) == k],
    )
}

/// Number of records whose forward counts as reconnecting.
pub open spec fn count_reconnecting<H>(s: Seq<PortForwardRecord<H>>) -> nat
    decreases s.len(),
{
    if s.len() == 0 {
        0
    } else {
        count_reconnecting(s.drop_last()) + if is_reconnecting(s.last().entry) { 1nat } else { 0nat }
    }
}

pub proof fn lemma_count_append<H>(a: Seq<PortForwardRecord<H>>, b: Seq<PortForwardRecord<H>>)
    ensures
        count_reconnecting(a + b) == count_reconnecting(a) + count_reconnecting(b),
    decreases b.len(),
{
    if b.len() == 0 {
        assert(a + b =~= a);
    } else {
        assert((a + b).drop_last() =~= a + b.drop_last());
        lemma_count_append(a, b.drop_last());
    }
}

pub proof fn lemma_count_single<H>(r: PortForwardRecord<H>)
    ensures
        count_reconnecting(seq![r]) == if is_reconnecting(r.entry) { 1nat } else { 0nat },
{
    let s1 = seq![r];
    assert(s1.drop_last() =~= Seq::<PortForwardRecord<H>>::empty());
    assert(s1.last() == r);
    assert(count_reconnecting(s1.drop_last()) == 0);
}

pub proof fn lemma_count_le_len<H>(s: Seq<PortForwardRecord<H>>)
    ensures
        count_reconnecting(s) <= s.len(),
    decreases s.len(),
{
    if s.len() > 0 {
        lemma_count_le_len(s.drop_last());
    }
}

pub proof fn lemma_count_update<H>(s: Seq<PortForwardRecord<H>>, i: int, r: PortForwardRecord<H>)
    requires
        0 <= i < s.len(),
    ensures
        count_reconnecting(s.update(i, r)) + (if is_reconnecting(s[i].entry) { 1nat } else { 0nat })
            == count_reconnecting(s) + (if is_reconnecting(r.entry) { 1nat } else { 0nat }),
{
    let pre = s.take(i);
    let post = s.skip(i + 1);
    assert(s =~= pre + seq![s[i]] + post);
    assert(s.update(i, r) =~= pre + seq![r] + post);
    lemma_count_append(pre + seq![s[i]], post);
    lemma_count_append(pre, seq![s[i]]);
    lemma_count_append(pre + seq![r], post);
    lemma_count_append(pre, seq![r]);
    lemma_count_single(s[i]);
    lemma_count_single(r);
}

pub proof fn lemma_count_insert<H>(s: Seq<PortForwardRecord<H>>, i: int, r: PortForwardRecord<H>)
    requires
        0 <= i <= s.len(),
    ensures
        count_reconnecting(s.insert(i, r)) == count_reconnecting(s) + (if is_reconnecting(r.entry) { 1nat } else { 0nat }),
{
    let pre = s.take(i);
    let post = s.skip(i);
    assert(s =~= pre + post);
    assert(s.insert(i, r) =~= pre + seq![r] + post);
    lemma_count_append(pre, post);
    lemma_count_append(pre + seq![r], post);
    lemma_count_append(pre, seq![r]);
    lemma_count_single(r);
}

pub proof fn lemma_count_remove<H>(s: Seq<PortForwardRecord<H>>, i: int)
    requires
        0 <= i < s.len(),
    ensures
        count_reconnecting(s.remove(i)) + (if is_reconnecting(s[i].entry) { 1nat } else { 0nat }) == count_reconnecting(s),
{
    let pre = s.take(i);
    let post = s.skip(i + 1);
    assert(s =~= pre + seq![s[i]] + post);
    assert(s.remove(i) =~= pre + post);
    lemma_count_append(pre + seq![s[i]], post);
    lemma_count_append(pre, seq![s[i]]);
    lemma_count_append(pre, post);
    lemma_count_single(s[i]);
}

/// In a sorted sequence each record is what the map holds under its id.
pub proof fn lemma_map_at<H>(s: Seq<PortForwardRecord<H>>, i: int)
    requires
        sorted_by_id(s),
        0 <= i < s.len(),
    ensures
        record_map(s).contains_key(id_of(s[i])),
        record_map(s)[id_of(s[i])] == s[i],
{
    let k = id_of(s[i]);
    assert(has_id(s, k));
    let j = choose|j: int| 0 <= j < s.len() && id_of(#[trigger] s[j]) == k;
    if j != i {
        lemma_seq_lt_is_strict_total_order(k, k, k);
        if j < i {
            assert(seq_lt(id_of(s[j]), id_of(s[i])));
        } else {
            assert(seq_lt(id_of(s[i]), id_of(s[j])));
        }
    }
}

pub proof fn lemma_map_update<H>(s: Seq<PortForwardRecord<H>>, i: int, r: PortForwardRecord<H>)
    requires
        sorted_by_id(s),
        0 <= i < s.len(),
        id_of(r) == id_of(s[i]),
    ensures
        sorted_by_id(s.update(i, r)),
        record_map(s.update(i, r)) == record_map(s).insert(id_of(r), r),
{
    let t = s.update(i, r);
    assert(sorted_by_id(t)) by {
        assert forall|a: int, b: int| 0 <= a < b < t.len() implies seq_lt(#[trigger] id_of(t[a]), #[trigger] id_of(t[b])) by {
            assert(id_of(t[a]) == id_of(s[a]));
            assert(id_of(t[b]) == id_of(s[b]));
        }
    }
    let m = record_map(s).insert(id_of(r), r);
    assert forall|k: Seq<char>| #[trigger] record_map(t).contains_key(k) <==> m.contains_key(k) by {
        if has_id(t, k) {
            let j = choose|j: int| 0 <= j < t.len() && id_of(#[trigger] t[j]) == k;
            if j != i {
                assert(id_of(s[j]) == k);
            }
        }
        if has_id(s, k) {
            let j = choose|j: int| 0 <= j < s.len() && id_of(#[trigger] s[j]) == k;
            assert(id_of(t[j]) == k);
        }
        if k == id_of(r) {
            assert(id_of(t[i]) == k);
        }
    }
    assert forall|k: Seq<char>| record_map(t).contains_key(k) implies #[trigger] record_map(t)[k] == m[k] by {
        let j = choose|j: int| 0 <= j < t.len() && id_of(#[trigger] t[j]) == k;
        lemma_map_at(t, j);
        if j != i {
            lemma_map_at(s, j);
            lemma_seq_lt_is_strict_total_order(k, k, k);
            if j < i {
                assert(seq_lt(id_of(t[j]), id_of(t[i])));
            } else {
                assert(seq_lt(id_of(t[i]), id_of(t[j])));
            }
            assert(k != id_of(r));
        }
    }
    assert(record_map(t) =~= m);
}

pub proof fn lemma_map_insert<H>(s: Seq<PortForwardRecord<H>>, p: int, r: PortForwardRecord<H>)
    requires
        sorted_by_id(s),
        0 <= p <= s.len(),
        forall|j: int| 0 <= j < p ==> seq_lt(#[trigger] id_of(s[j]), id_of(r)),
        forall|j: int| p <= j < s.len() ==> seq_lt(id_of(r), #[trigger] id_of(s[j])),
    ensures
        sorted_by_id(s.insert(p, r)),
        record_map(s.insert(p, r)) == record_map(s).insert(id_of(r), r),
        !record_map(s).contains_key(id_of(r)),
{
    let t = s.insert(p, r);
    assert(sorted_by_id(t)) by {
        assert forall|a: int, b: int| 0 <= a < b < t.len() implies seq_lt(#[trigger] id_of(t[a]), #[trigger] id_of(t[b])) by {
            if a < p && b < p {
            } else if a < p && b == p {
            } else if a < p && b > p {
                assert(t[b] == s[b - 1]);
            } else if a == p {
                assert(t[b] == s[b - 1]);
            } else {
                assert(t[a] == s[a - 1]);
                assert(t[b] == s[b - 1]);
            }
        }
    }
    assert(!has_id(s, id_of(r))) by {
        if has_id(s, id_of(r)) {
            let j = choose|j: int| 0 <= j < s.len() && id_of(#[trigger] s[j]) == id_of(r);
            lemma_seq_lt_is_strict_total_order(id_of(r), id_of(r), id_of(r));
            if j < p {
                assert(seq_lt(id_of(s[j]), id_of(r)));
            } else {
                assert(seq_lt(id_of(r), id_of(s[j])));
            }
        }
    }
    let m = record_map(s).insert(id_of(r), r);
    assert forall|k: Seq<char>| #[trigger] record_map(t).contains_key(k) <==> m.contains_key(k) by {
        if has_id(t, k) {
            let j = choose|j: int| 0 <= j < t.len() && id_of(#[trigger] t[j]) == k;
            if j < p {
                assert(id_of(s[j]) == k);
            } else if j > p {
                assert(id_of(s[j - 1]) == k);
            }
        }
        if has_id(s, k) {
            let j = choose|j: int| 0 <= j < s.len() && id_of(#[trigger] s[j]) == k;
            if j < p {
                assert(id_of(t[j]) == k);
            } else {
                assert(id_of(t[j + 1]) == k);
            }
        }
        if k == id_of(r) {
            assert(id_of(t[p]) == k);
        }
    }
    assert forall|k: Seq<char>| record_map(t).contains_key(k) implies #[trigger] record_map(t)[k] == m[k] by {
        let j = choose|j: int| 0 <= j < t.len() && id_of(#[trigger] t[j]) == k;
        lemma_map_at(t, j);
        if j < p {
            lemma_map_at(s, j);
        } else if j > p {
            lemma_map_at(s, j - 1);
        }
    }
    assert(record_map(t) =~= m);
}

pub proof fn lemma_map_remove<H>(s: Seq<PortForwardRecord<H>>, i: int)
    requires
        sorted_by_id(s),
        0 <= i < s.len(),
    ensures
        sorted_by_id(s.remove(i)),
        record_map(s.remove(i)) == record_map(s).remove(id_of(s[i])),
{
    let t = s.remove(i);
    let k0 = id_of(s[i]);
    assert(sorted_by_id(t)) by {
        assert forall|a: int, b: int| 0 <= a < b < t.len() implies seq_lt(#[trigger] id_of(t[a]), #[trigger] id_of(t[b])) by {
            if a < i && b < i {
            } else if a < i {
                assert(t[b] == s[b + 1]);
            } else {
                assert(t[a] == s[a + 1]);
                assert(t[b] == s[b + 1]);
            }
        }
    }
    let m = record_map(s).remove(k0);
    lemma_seq_lt_is_strict_total_order(k0, k0, k0);
    assert forall|k: Seq<char>| #[trigger] record_map(t).contains_key(k) <==> m.contains_key(k) by {
        if has_id(t, k) {
            let j = choose|j: int| 0 <= j < t.len() && id_of(#[trigger] t[j]) == k;
            if j < i {
                assert(id_of(s[j]) == k);
                assert(seq_lt(id_of(s[j]), id_of(s[i])));
            } else {
                assert(id_of(s[j + 1]) == k);
                assert(seq_lt(id_of(s[i]), id_of(s[j + 1])));
            }
        }
        if has_id(s, k) && k != k0 {
            let j = choose|j: int| 0 <= j < s.len() && id_of(#[trigger] s[j]) == k;
            if j < i {
                assert(id_of(t[j]) == k);
            } else {
                assert(j != i);
                assert(id_of(t[j - 1]) == k);
            }
        }
    }
    assert forall|k: Seq<char>| record_map(t).contains_key(k) implies #[trigger] record_map(t)[k] == m[k] by {
        let j = choose|j: int| 0 <= j < t.len() && id_of(#[trigger] t[j]) == k;
        lemma_map_at(t, j);
        if j < i {
            lemma_map_at(s, j);
        } else {
            lemma_map_at(s, j + 1);
        }
    }
    assert(record_map(t) =~= m);
}


/// The entry with one side ready again (open forwards only).
pub open spec fn ready_entry(e: ForwardPortEntry, role: ForwardPortSideRole) -> ForwardPortEntry {
    if e.status != ForwardPortStatus::Open {
        e
    } else {
        let e1 = match role {
            ForwardPortSideRole::Listen => ForwardPortEntry {
                listen_state: side_with_health(e.listen_state, ForwardPortSideHealth::Ready, None),
                ..e
            },
            ForwardPortSideRole::Connect => ForwardPortEntry {
                connect_state: side_with_health(e.connect_state, ForwardPortSideHealth::Ready, None),
                ..e
            },
        };
        ForwardPortEntry { phase: spec_derive_phase(e1), ..e1 }
    }
}

/// The entry once one side started reconnecting after `error` at time `now`.
pub open spec fn reconnecting_entry(e: ForwardPortEntry, role: ForwardPortSideRole, error: String, now: u64) -> ForwardPortEntry {
    let e0 = ForwardPortEntry {
        reconnect_attempts: (e.reconnect_attempts + 1) as u64,
        last_reconnect_at: Some(now),
        ..e
    };
    let e1 = match role {
        ForwardPortSideRole::Listen => ForwardPortEntry {
            listen_state: side_with_health(e0.listen_state, ForwardPortSideHealth::Reconnecting, Some(error)),
            ..e0
        },
        ForwardPortSideRole::Connect => ForwardPortEntry {
            connect_state: side_with_health(e0.connect_state, ForwardPortSideHealth::Reconnecting, Some(error)),
            ..e0
        },
    };
    ForwardPortEntry { phase: spec_derive_phase(e1), ..e1 }
}

/// The entry once the listen side recovered and the connect side reopens.
pub open spec fn reopening_entry(e: ForwardPortEntry, error: String, now: u64) -> ForwardPortEntry {
    let e1 = ForwardPortEntry {
        reconnect_attempts: (e.reconnect_attempts + 1) as u64,
        last_reconnect_at: Some(now),
        listen_state: side_with_health(e.listen_state, ForwardPortSideHealth::Ready, None),
        connect_state: side_with_health(e.connect_state, ForwardPortSideHealth::Reconnecting, Some(error)),
        ..e
    };
    ForwardPortEntry { phase: spec_derive_phase(e1), ..e1 }
}

/// The entry with both sides moved to `generation` (open forwards only).
pub open spec fn generation_entry(e: ForwardPortEntry, generation: u64) -> ForwardPortEntry {
    if e.status != ForwardPortStatus::Open {
        e
    } else {
        ForwardPortEntry {
            listen_state: ForwardPortSideState { generation: generation, ..e.listen_state },
            connect_state: ForwardPortSideState { generation: generation, ..e.connect_state },
            ..e
        }
    }
}

/// The counters a forwarding loop updates.
#[derive(Debug, Clone, Copy, PartialEq, Eq, Structural)]
pub enum CounterUpdate {
    /// One TCP stream took an active slot.
    ReservedActiveStream,
    /// One UDP datagram was dropped.
    DroppedDatagram,
    /// One TCP stream was dropped before it became active.
    DroppedStream,
    /// `n` active TCP streams were dropped.
    DroppedActiveStreams(u64),
    /// One active TCP stream finished.
    ReleasedActiveStream,
    /// A tunnel endpoint reported `n` dropped TCP streams.
    ReportedDroppedStreams(u64),
    /// A tunnel endpoint reported `n` dropped UDP datagrams.
    ReportedDroppedDatagrams(u64),
}

pub open spec fn sat_add(a: u64, b: u64) -> u64 {
    if a + b > u64::MAX { u64::MAX } else { (a + b) as u64 }
}

pub open spec fn sat_sub(a: u64, b: u64) -> u64 {
    if a < b { 0 } else { (a - b) as u64 }
}

/// What an update needs to stay in range.
pub open spec fn counter_update_fits(e: ForwardPortEntry, u: CounterUpdate) -> bool {
    match u {
        CounterUpdate::ReservedActiveStream => e.active_tcp_streams < u64::MAX,
        CounterUpdate::DroppedDatagram => e.dropped_udp_datagrams < u64::MAX,
        CounterUpdate::DroppedStream => e.dropped_tcp_streams < u64::MAX,
        CounterUpdate::DroppedActiveStreams(n) => e.dropped_tcp_streams + n <= u64::MAX,
        _ => true,
    }
}

/// The entry after a counter update; a report counts at least one drop and
/// saturates, releases never go below zero.
pub open spec fn counted_entry(e: ForwardPortEntry, u: CounterUpdate) -> ForwardPortEntry {
    match u {
        CounterUpdate::ReservedActiveStream => ForwardPortEntry { active_tcp_streams: (e.active_tcp_streams + 1) as u64, ..e },
        CounterUpdate::DroppedDatagram => ForwardPortEntry { dropped_udp_datagrams: (e.dropped_udp_datagrams + 1) as u64, ..e },
        CounterUpdate::DroppedStream => ForwardPortEntry { dropped_tcp_streams: (e.dropped_tcp_streams + 1) as u64, ..e },
        CounterUpdate::DroppedActiveStreams(n) => if n == 0 {
            e
        } else {
            ForwardPortEntry {
                dropped_tcp_streams: (e.dropped_tcp_streams + n) as u64,
                active_tcp_streams: sat_sub(e.active_tcp_streams, n),
                ..e
            }
        },
        CounterUpdate::ReleasedActiveStream => ForwardPortEntry { active_tcp_streams: sat_sub(e.active_tcp_streams, 1), ..e },
        CounterUpdate::ReportedDroppedStreams(n) => ForwardPortEntry {
            dropped_tcp_streams: sat_add(e.dropped_tcp_streams, if n == 0 { 1 } else { n }),
            ..e
        },
        CounterUpdate::ReportedDroppedDatagrams(n) => ForwardPortEntry {
            dropped_udp_datagrams: sat_add(e.dropped_udp_datagrams, if n == 0 { 1 } else { n }),
            ..e
        },
    }
}

pub open spec fn with_entry<H>(r: PortForwardRecord<H>, e: ForwardPortEntry) -> PortForwardRecord<H> {
    PortForwardRecord { entry: e, ..r }
}

/// Which forwards a listing selects.
pub struct PortForwardFilter {
    pub listen_side: Option<String>,
    pub connect_side: Option<String>,
    pub forward_ids: Vec<String>,
}

pub open spec fn filter_matches(f: PortForwardFilter, e: ForwardPortEntry) -> bool {
    &&& (f.listen_side matches Some(l) ==> e.listen_side@ == l@)
    &&& (f.connect_side matches Some(c) ==> e.connect_side@ == c@)
    &&& (f.forward_ids@.len() == 0 || exists|j: int| 0 <= j < f.forward_ids@.len() && #[trigger] f.forward_ids@[j]@ == e.forward_id@)
}

/// The entries of the records that match `f`, in record order.
pub open spec fn matching_entries<H>(s: Seq<PortForwardRecord<H>>, f: PortForwardFilter) -> Seq<ForwardPortEntry>
    decreases s.len(),
{
    if s.len() == 0 {
        Seq::empty()
    } else {
        let prev = matching_entries(s.drop_last(), f);
        if filter_matches(f, s.last().entry) { prev.push(s.last().entry) } else { prev }
    }
}

pub proof fn lemma_matching_from_records<H>(s: Seq<PortForwardRecord<H>>, f: PortForwardFilter)
    ensures
        forall|k: int| 0 <= k < matching_entries(s, f).len() ==>
            exists|j: int| 0 <= j < s.len() && #[trigger] matching_entries(s, f)[k] == s[j].entry,
    decreases s.len(),
{
    if s.len() > 0 {
        lemma_matching_from_records(s.drop_last(), f);
        let prev = matching_entries(s.drop_last(), f);
        assert forall|k: int| 0 <= k < matching_entries(s, f).len() implies
            exists|j: int| 0 <= j < s.len() && #[trigger] matching_entries(s, f)[k] == s[j].entry by {
            if k < prev.len() {
                let j = choose|j: int| 0 <= j < s.drop_last().len() && #[trigger] prev[k] == s.drop_last()[j].entry;
                assert(matching_entries(s, f)[k] == s[j].entry);
            } else {
                assert(matching_entries(s, f)[k] == s[s.len() - 1].entry);
            }
        }
    }
}

/// A listing of a sorted store is sorted by forward id.
pub proof fn lemma_matching_sorted<H>(s: Seq<PortForwardRecord<H>>, f: PortForwardFilter)
    requires
        sorted_by_id(s),
    ensures
        entries_sorted_by_id(matching_entries(s, f)),
    decreases s.len(),
{
    if s.len() > 0 {
        let t = s.drop_last();
        assert(sorted_by_id(t)) by {
            assert forall|a: int, b: int| 0 <= a < b < t.len() implies seq_lt(#[trigger] id_of(t[a]), #[trigger] id_of(t[b])) by {
                assert(t[a] == s[a] && t[b] == s[b]);
            }
        }
        lemma_matching_sorted(t, f);
        lemma_matching_from_records(t, f);
        let prev = matching_entries(t, f);
        let m = matching_entries(s, f);
        if filter_matches(f, s.last().entry) {
            assert forall|a: int, b: int| 0 <= a < b < m.len() implies seq_lt(#[trigger] m[a].forward_id@, #[trigger] m[b].forward_id@) by {
                if b == m.len() - 1 {
                    let j = choose|j: int| 0 <= j < t.len() && #[trigger] prev[a] == t[j].entry;
                    assert(id_of(s[j]) == m[a].forward_id@);
                    assert(id_of(s[s.len() - 1]) == m[b].forward_id@);
                } else {
                    assert(m[a] == prev[a] && m[b] == prev[b]);
                }
            }
        }
    }
}

/// Number of records between `listen` and `connect`.
pub open spec fn count_side_pair<H>(s: Seq<PortForwardRecord<H>>, listen: Seq<char>, connect: Seq<char>) -> nat
    decreases s.len(),
{
    if s.len() == 0 {
        0
    } else {
        count_side_pair(s.drop_last(), listen, connect)
            + if s.last().entry.listen_side@ == listen && s.last().entry.connect_side@ == connect { 1nat } else { 0nat }
    }
}

/// The ids of `s` with repeats removed, first occurrence kept.
pub open spec fn dedup(s: Seq<Seq<char>>) -> Seq<Seq<char>>
    decreases s.len(),
{
    if s.len() == 0 {
        Seq::empty()
    } else {
        let d = dedup(s.drop_last());
        if d.contains(s.last()) { d } else { d.push(s.last()) }
    }
}

pub proof fn lemma_dedup_props(s: Seq<Seq<char>>)
    ensures
        forall|a: int, b: int| 0 <= a < b < dedup(s).len() ==> dedup(s)[a] != dedup(s)[b],
        forall|k: int| 0 <= k < dedup(s).len() ==> s.contains(#[trigger] dedup(s)[k]),
        forall|k: int| 0 <= k < s.len() ==> dedup(s).contains(#[trigger] s[k]),
    decreases s.len(),
{
    if s.len() > 0 {
        let t = s.drop_last();
        lemma_dedup_props(t);
        let d = dedup(t);
        assert forall|k: int| 0 <= k < dedup(s).len() implies s.contains(#[trigger] dedup(s)[k]) by {
            if k < d.len() {
                assert(t.contains(d[k]));
                let j = choose|j: int| 0 <= j < t.len() && t[j] == d[k];
                assert(s[j] == d[k]);
            } else {
                assert(s[s.len() - 1] == dedup(s)[k]);
            }
        }
        assert forall|k: int| 0 <= k < s.len() implies dedup(s).contains(#[trigger] s[k]) by {
            if k < t.len() {
                assert(t[k] == s[k]);
                assert(d.contains(t[k]));
                let j = choose|j: int| 0 <= j < d.len() && d[j] == t[k];
                assert(dedup(s)[j] == s[k]);
            } else if d.contains(s.last()) {
            } else {
                assert(dedup(s)[d.len() as int] == s[k]);
            }
        }
    }
}

/// The first id of `ids` the map does not hold.
pub open spec fn first_unknown<H>(ids: Seq<Seq<char>>, m: Map<Seq<char>, PortForwardRecord<H>>) -> Option<int> {
    if exists|i: int| 0 <= i < ids.len() && !m.contains_key(#[trigger] ids[i]) {
        Some(choose|i: int| 0 <= i < ids.len() && !m.contains_key(#[trigger] ids[i])
            && forall|j: int| 0 <= j < i ==> m.contains_key(#[trigger] ids[j]))
    } else {
        None
    }
}

/// Message for a close request naming a forward the store does not hold.
pub open spec fn unknown_forward_text(id: Seq<char>) -> Seq<char> {
    "unknown forward_id `"@ + id + "`"@
}

/// The error a close request fails with when closing `forward_id` failed.
pub open spec fn close_failure_text(forward_id: Seq<char>, err: Seq<char>) -> Seq<char> {
    "closing port forward `"@ + forward_id + "`: "@ + err
}

/// `m` with every record of `s` inserted in turn.
pub open spec fn insert_all<H>(m: Map<Seq<char>, PortForwardRecord<H>>, s: Seq<PortForwardRecord<H>>) -> Map<Seq<char>, PortForwardRecord<H>>
    decreases s.len(),
{
    if s.len() == 0 {
        m
    } else {
        insert_all(m, s.drop_last()).insert(id_of(s.last()), s.last())
    }
}

/// The forwards the broker holds open.
pub struct PortForwardStore<H> {
    records: Vec<PortForwardRecord<H>>,
    reconnecting_count: usize,
}

impl<H> PortForwardStore<H> {
    /// The records, sorted by forward id.
    pub closed spec fn records(&self) -> Seq<PortForwardRecord<H>> {
        self.records@
    }

    /// How many forwards the store counts as reconnecting.
    pub closed spec fn reconnecting_count(&self) -> nat {
        self.reconnecting_count as nat
    }

    /// The records keyed by forward id.
    pub open spec fn view(&self) -> Map<Seq<char>, PortForwardRecord<H>> {
        record_map(self.records())
    }

    /// Records sorted by id and the reconnecting count exact; every store
    /// keeps this at all times.
    #[verifier::type_invariant]
    pub open spec fn wf(self) -> bool {
        &&& sorted_by_id(self.records())
        &&& self.reconnecting_count() == count_reconnecting(self.records())
    }

    pub fn new() -> (res: Self)
        ensures
            res.records().len() == 0,
            res.view() == Map::<Seq<char>, PortForwardRecord<H>>::empty(),
    {
        let res = PortForwardStore { records: Vec::new(), reconnecting_count: 0 };
        assert(res.view() =~= Map::<Seq<char>, PortForwardRecord<H>>::empty());
        res
    }

    /// Takes the store apart, leaving an empty one in its place.
    fn into_parts(&mut self) -> (res: (Vec<PortForwardRecord<H>>, usize))
        ensures
            res.0@ == old(self).records(),
            res.1 == old(self).reconnecting_count(),
            old(self).wf(),
            final(self).records().len() == 0,
    {
        proof {
            use_type_invariant(&*self);
        }
        let mut me = PortForwardStore::new();
        std::mem::swap(&mut me, self);
        let PortForwardStore { records, reconnecting_count } = me;
        (records, reconnecting_count)
    }

    /// Puts a store together from sorted records and their exact count.
    fn from_parts(records: Vec<PortForwardRecord<H>>, reconnecting_count: usize) -> (res: Self)
        requires
            sorted_by_id(records@),
            reconnecting_count == count_reconnecting(records@),
        ensures
            res.records() == records@,
            res.reconnecting_count() == reconnecting_count,
    {
        PortForwardStore { records, reconnecting_count }
    }

    /// Takes out the record at `i`.
    fn remove_at(&mut self, i: usize) -> (res: PortForwardRecord<H>)
        requires
            i < old(self).records().len(),
        ensures
            res == old(self).records()[i as int],
            final(self).records() == old(self).records().remove(i as int),
            final(self).view() == old(self).view().remove(id_of(res)),
    {
        proof {
            use_type_invariant(&*self);
        }
        let (mut records, mut count) = self.into_parts();
        let ghost s = records@;
        let before = is_reconnecting_entry(&records[i].entry);
        let rec = records.remove(i);
        proof {
            lemma_count_remove(s, i as int);
            lemma_map_remove(s, i as int);
        }
        if before {
            count = count - 1;
        }
        *self = Self::from_parts(records, count);
        rec
    }

    /// Position of the record with id `id`.
    fn find_index(&self, id: &String) -> (res: Option<usize>)
        ensures
            match res {
                Some(i) => i < self.records().len() && id_of(self.records()[i as int]) == id@,
                None => !self.view().contains_key(id@),
            },
    {
        proof {
            use_type_invariant(self);
        }
        let mut i: usize = 0;
        while i < self.records.len()
            invariant
                i <= self.records@.len(),
                forall|j: int| 0 <= j < i ==> id_of(#[trigger] self.records@[j]) != id@,
            decreases self.records@.len() - i,
        {
            if self.records[i].entry.forward_id == *id {
                return Some(i);
            }
            i = i + 1;
        }
        None
    }

    /// Replaces the entry at `i`, keeping the reconnecting count exact.
    fn replace_entry(&mut self, i: usize, entry: ForwardPortEntry)
        requires
            i < old(self).records().len(),
            entry.forward_id@ == id_of(old(self).records()[i as int]),
        ensures
            final(self).records() == old(self).records().update(i as int, with_entry(old(self).records()[i as int], entry)),
            final(self).view() == old(self).view().insert(entry.forward_id@, with_entry(old(self).records()[i as int], entry)),
    {
        proof {
            use_type_invariant(&*self);
        }
        let (mut records, mut count) = self.into_parts();
        let ghost s = records@;
        let before = is_reconnecting_entry(&records[i].entry);
        let after = is_reconnecting_entry(&entry);
        let old_rec = records.remove(i);
        let rec = PortForwardRecord { entry: entry, close_handle: old_rec.close_handle };
        records.insert(i, rec);
        let _len = records.len();
        proof {
            assert(records@ =~= s.update(i as int, rec));
            lemma_count_update(s, i as int, rec);
            lemma_count_le_len(records@);
            lemma_map_update(s, i as int, rec);
        }
        adjust_reconnecting_count(&mut count, before, after);
        *self = Self::from_parts(records, count);
    }

    /// Adds `record`, replacing any record with the same forward id.
    pub fn insert(&mut self, record: PortForwardRecord<H>)
        ensures
            final(self).view() == old(self).view().insert(id_of(record), record),
    {
        proof {
            use_type_invariant(&*self);
        }
        let (mut records, mut count) = self.into_parts();
        let ghost s = records@;
        let ghost r = record;
        let mut k: usize = 0;
        let mut done = false;
        while k < records.len() && !done
            invariant
                records@ == s,
                s == old(self).records@,
                sorted_by_id(s),
                count == count_reconnecting(s),
                k <= s.len(),
                forall|j: int| 0 <= j < k ==> seq_lt(#[trigger] id_of(s[j]), id_of(r)),
                done ==> k < s.len() && seq_lt(id_of(r), id_of(s[k as int])),
                r == record,
            decreases s.len() - k + (if done { 0int } else { 1int }),
        {
            if records[k].entry.forward_id == record.entry.forward_id {
                let before = is_reconnecting_entry(&records[k].entry);
                let after = is_reconnecting_entry(&record.entry);
                let _old = records.remove(k);
                records.insert(k, record);
                let _len = records.len();
                proof {
                    assert(records@ =~= s.update(k as int, r));
                    lemma_count_update(s, k as int, r);
                    lemma_count_le_len(records@);
                    lemma_map_update(s, k as int, r);
                    assert(record_map(records@) == record_map(s).insert(id_of(r), r));
                }
                adjust_reconnecting_count(&mut count, before, after);
                *self = Self::from_parts(records, count);
                return;
            }
            if str_lt(record.entry.forward_id.as_str(), records[k].entry.forward_id.as_str()) {
                done = true;
            } else {
                proof {
                    lemma_seq_lt_is_strict_total_order(id_of(s[k as int]), id_of(r), id_of(r));
                }
                k = k + 1;
            }
        }
        proof {
            assert forall|j: int| k <= j < s.len() implies seq_lt(id_of(r), #[trigger] id_of(s[j])) by {
                assert(done);
                if j > k {
                    assert(seq_lt(id_of(s[k as int]), id_of(s[j])));
                    lemma_seq_lt_is_strict_total_order(id_of(r), id_of(s[k as int]), id_of(s[j]));
                }
            }
        }
        let after = is_reconnecting_entry(&record.entry);
        records.insert(k, record);
        let _len = records.len();
        proof {
            lemma_count_insert(s, k as int, r);
            lemma_count_le_len(records@);
            lemma_map_insert(s, k as int, r);
        }
        if after {
            count = count + 1;
        }
        *self = Self::from_parts(records, count);
    }

    /// How many forwards are open.
    pub fn open_count(&self) -> (res: usize)
        ensures
            res == self.records().len(),
    {
        proof {
            use_type_invariant(&*self);
        }
        self.records.len()
    }

    /// The entries that match `filter`, sorted by forward id.
    pub fn list(&self, filter: &PortForwardFilter) -> (res: Vec<ForwardPortEntry>)
        ensures
            res@ == matching_entries(self.records(), *filter),
            entries_sorted_by_id(res@),
    {
        proof {
            use_type_invariant(&*self);
        }
        let mut res: Vec<ForwardPortEntry> = Vec::new();
        let mut i: usize = 0;
        while i < self.records.len()
            invariant
                i <= self.records@.len(),
                res@ == matching_entries(self.records@.take(i as int), *filter),
            decreases self.records@.len() - i,
        {
            proof {
                assert(self.records@.take(i + 1).drop_last() =~= self.records@.take(i as int));
            }
            if filter.matches(&self.records[i].entry) {
                res.push(self.records[i].entry.duplicate());
            }
            i = i + 1;
        }
        proof {
            assert(self.records@.take(i as int) =~= self.records@);
            lemma_matching_sorted(self.records@, *filter);
        }
        res
    }

    /// How many forwards run from `listen_side` to `connect_side`.
    pub fn side_pair_count(&self, listen_side: &String, connect_side: &String) -> (res: usize)
        ensures
            res == count_side_pair(self.records(), listen_side@, connect_side@),
    {
        proof {
            use_type_invariant(&*self);
        }
        let mut n: usize = 0;
        let mut i: usize = 0;
        while i < self.records.len()
            invariant
                i <= self.records@.len(),
                n == count_side_pair(self.records@.take(i as int), listen_side@, connect_side@),
                n <= i,
            decreases self.records@.len() - i,
        {
            proof {
                assert(self.records@.take(i + 1).drop_last() =~= self.records@.take(i as int));
            }
            if self.records[i].entry.listen_side == *listen_side && self.records[i].entry.connect_side == *connect_side {
                n = n + 1;
            }
            i = i + 1;
        }
        proof {
            assert(self.records@.take(i as int) =~= self.records@);
        }
        n
    }

    /// Forwards that currently count as reconnecting.
    pub open spec fn reconnecting_forwards(&self) -> nat {
        count_reconnecting(self.records())
    }

    /// Position of `forward_id`, with the view at that id tied to the record.
    fn locate(&self, forward_id: &str) -> (res: Option<usize>)
        ensures
            match res {
                Some(i) => i < self.records().len() && self.view().contains_key(forward_id@)
                    && self.view()[forward_id@] == self.records()[i as int],
                None => !self.view().contains_key(forward_id@),
            },
    {
        proof {
            use_type_invariant(self);
        }
        let id = forward_id.to_owned();
        let found = self.find_index(&id);
        if let Some(i) = found {
            proof {
                lemma_map_at(self.records@, i as int);
            }
        }
        found
    }

    /// Marks the forward failed with `error`; unknown ids are ignored.
    pub fn mark_failed(&mut self, forward_id: &str, error: String)
        ensures
            final(self).view() == if old(self).view().contains_key(forward_id@) {
                old(self).view().insert(forward_id@, with_entry(old(self).view()[forward_id@], failed_entry(old(self).view()[forward_id@].entry, error)))
            } else {
                old(self).view()
            },
    {
        proof {
            use_type_invariant(&*self);
        }
        if let Some(i) = self.locate(forward_id) {
            let mut e = self.records[i].entry.duplicate();
            mark_entry_failed(&mut e, error);
            self.replace_entry(i, e);
        }
    }

    /// Fails the forward instead of letting it reconnect when the broker's
    /// reconnecting limit is reached.
    pub fn ensure_reconnect_capacity(&mut self, forward_id: &str, max_reconnecting_forwards: usize) -> (res: Result<(), String>)
        ensures
            ({
                let m = old(self).view();
                let blocked = m.contains_key(forward_id@) && m[forward_id@].entry.status == ForwardPortStatus::Open
                    && !is_reconnecting(m[forward_id@].entry)
                    && old(self).reconnecting_forwards() >= max_reconnecting_forwards;
                if blocked {
                    &&& res is Err && res->Err_0@ == reconnect_limit_exceeded_text()
                    &&& final(self).view() == m.insert(forward_id@, with_entry(m[forward_id@],
                        failed_entry(m[forward_id@].entry, res->Err_0)))
                } else {
                    res is Ok && final(self).view() == m
                }
            }),
    {
        proof {
            use_type_invariant(&*self);
        }
        let Some(i) = self.locate(forward_id) else {
            return Ok(());
        };
        if self.records[i].entry.status != ForwardPortStatus::Open {
            return Ok(());
        }
        let already = is_reconnecting_entry(&self.records[i].entry);
        if !already && self.reconnecting_count >= max_reconnecting_forwards {
            let msg = reconnect_limit_exceeded_message();
            let mut e = self.records[i].entry.duplicate();
            mark_entry_failed(&mut e, msg.clone());
            self.replace_entry(i, e);
            return Err(msg);
        }
        Ok(())
    }

    /// Records that one side of an open forward lost its tunnel at time `now`
    /// and is reconnecting, unless the reconnect limit fails it instead.
    pub fn mark_reconnecting(
        &mut self,
        forward_id: &str,
        role: ForwardPortSideRole,
        error: String,
        max_reconnecting_forwards: usize,
        now: u64,
    ) -> (res: Result<(), String>)
        requires
            old(self).view().contains_key(forward_id@) ==> old(self).view()[forward_id@].entry.reconnect_attempts < u64::MAX,
        ensures
            old(self).reconnecting_forwards() <= max_reconnecting_forwards
                ==> final(self).reconnecting_forwards() <= max_reconnecting_forwards,
            ({
                let m = old(self).view();
                let present = m.contains_key(forward_id@) && m[forward_id@].entry.status == ForwardPortStatus::Open;
                let blocked = present && !is_reconnecting(m[forward_id@].entry)
                    && old(self).reconnecting_forwards() >= max_reconnecting_forwards;
                if blocked {
                    &&& res is Err && res->Err_0@ == reconnect_limit_exceeded_text()
                    &&& final(self).view() == m.insert(forward_id@, with_entry(m[forward_id@],
                        failed_entry(m[forward_id@].entry, res->Err_0)))
                } else if present {
                    &&& res is Ok
                    &&& final(self).view() == m.insert(forward_id@, with_entry(m[forward_id@],
                        reconnecting_entry(m[forward_id@].entry, role, error, now)))
                } else {
                    res is Ok && final(self).view() == m
                }
            }),
    {
        proof {
            use_type_invariant(&*self);
        }
        let ghost s0 = self.records();
        let Some(i) = self.locate(forward_id) else {
            return Ok(());
        };
        if self.records[i].entry.status != ForwardPortStatus::Open {
            return Ok(());
        }
        let already = is_reconnecting_entry(&self.records[i].entry);
        if !already && self.reconnecting_count >= max_reconnecting_forwards {
            let msg = reconnect_limit_exceeded_message();
            let mut e = self.records[i].entry.duplicate();
            mark_entry_failed(&mut e, msg.clone());
            self.replace_entry(i, e);
            proof { lemma_count_update(s0, i as int, self.records()[i as int]); }
            return Err(msg);
        }
        let e = self.records[i].entry.duplicate();
        let e = mark_side_reconnecting(e, role, error, now);
        self.replace_entry(i, e);
        proof { lemma_count_update(s0, i as int, self.records()[i as int]); }
        Ok(())
    }

    /// Records that the listen side recovered while the connect side reopens
    /// its tunnel, in one step, unless the reconnect limit fails the forward.
    pub fn mark_connect_reopening_after_listen_recovery(
        &mut self,
        forward_id: &str,
        error: String,
        max_reconnecting_forwards: usize,
        now: u64,
    ) -> (res: Result<(), String>)
        requires
            old(self).view().contains_key(forward_id@) ==> old(self).view()[forward_id@].entry.reconnect_attempts < u64::MAX,
        ensures
            old(self).reconnecting_forwards() <= max_reconnecting_forwards
                ==> final(self).reconnecting_forwards() <= max_reconnecting_forwards,
            ({
                let m = old(self).view();
                let present = m.contains_key(forward_id@) && m[forward_id@].entry.status == ForwardPortStatus::Open;
                let blocked = present && !is_reconnecting(m[forward_id@].entry)
                    && old(self).reconnecting_forwards() >= max_reconnecting_forwards;
                if blocked {
                    &&& res is Err && res->Err_0@ == reconnect_limit_exceeded_text()
                    &&& final(self).view() == m.insert(forward_id@, with_entry(m[forward_id@],
                        failed_entry(m[forward_id@].entry, res->Err_0)))
                } else if present {
                    &&& res is Ok
                    &&& final(self).view() == m.insert(forward_id@, with_entry(m[forward_id@],
                        reopening_entry(m[forward_id@].entry, error, now)))
                } else {
                    res is Ok && final(self).view() == m
                }
            }),
    {
        proof {
            use_type_invariant(&*self);
        }
        let ghost s0 = self.records();
        let Some(i) = self.locate(forward_id) else {
            return Ok(());
        };
        if self.records[i].entry.status != ForwardPortStatus::Open {
            return Ok(());
        }
        let already = is_reconnecting_entry(&self.records[i].entry);
        if !already && self.reconnecting_count >= max_reconnecting_forwards {
            let msg = reconnect_limit_exceeded_message();
            let mut e = self.records[i].entry.duplicate();
            mark_entry_failed(&mut e, msg.clone());
            self.replace_entry(i, e);
            proof { lemma_count_update(s0, i as int, self.records()[i as int]); }
            return Err(msg);
        }
        let e = self.records[i].entry.duplicate();
        let e = mark_connect_reopening(e, error, now);
        self.replace_entry(i, e);
        proof { lemma_count_update(s0, i as int, self.records()[i as int]); }
        Ok(())
    }

    /// Marks one side of an open forward ready again.
    pub fn mark_ready(&mut self, forward_id: &str, role: ForwardPortSideRole)
        ensures
            final(self).view() == if old(self).view().contains_key(forward_id@) {
                old(self).view().insert(forward_id@, with_entry(old(self).view()[forward_id@], ready_entry(old(self).view()[forward_id@].entry, role)))
            } else {
                old(self).view()
            },
    {
        proof {
            use_type_invariant(&*self);
        }
        if let Some(i) = self.locate(forward_id) {
            let e = self.records[i].entry.duplicate();
            let e = mark_side_ready(e, role);
            self.replace_entry(i, e);
        }
    }

    /// Moves both sides of an open forward to tunnel generation `generation`.
    pub fn set_forward_generation(&mut self, forward_id: &str, generation: u64)
        ensures
            final(self).view() == if old(self).view().contains_key(forward_id@) {
                old(self).view().insert(forward_id@, with_entry(old(self).view()[forward_id@], generation_entry(old(self).view()[forward_id@].entry, generation)))
            } else {
                old(self).view()
            },
    {
        proof {
            use_type_invariant(&*self);
        }
        if let Some(i) = self.locate(forward_id) {
            let mut e = self.records[i].entry.duplicate();
            if e.status == ForwardPortStatus::Open {
                e.listen_state.generation = generation;
                e.connect_state.generation = generation;
            }
            self.replace_entry(i, e);
        }
    }

    /// Applies a counter update to the forward's entry.
    pub fn update_counters(&mut self, forward_id: &str, update: CounterUpdate)
        requires
            old(self).view().contains_key(forward_id@) ==> counter_update_fits(old(self).view()[forward_id@].entry, update),
        ensures
            final(self).view() == if old(self).view().contains_key(forward_id@) {
                old(self).view().insert(forward_id@, with_entry(old(self).view()[forward_id@], counted_entry(old(self).view()[forward_id@].entry, update)))
            } else {
                old(self).view()
            },
    {
        proof {
            use_type_invariant(&*self);
        }
        if let Some(i) = self.locate(forward_id) {
            let e = self.records[i].entry.duplicate();
            let e = count_update(e, update);
            self.replace_entry(i, e);
        }
    }

    /// The close request's ids, each checked against the store, repeats
    /// dropped; the first unknown id fails the whole request.
    pub fn validated_unique_close_ids(&self, forward_ids: &Vec<String>) -> (res: Result<Vec<String>, String>)
        ensures
            ({
                let ids = forward_ids@.map_values(|s: String| s@);
                match first_unknown(ids, self.view()) {
                    Some(i) => res is Err && res->Err_0@ == unknown_forward_text(ids[i]),
                    None => res is Ok && res->Ok_0@.map_values(|s: String| s@) == dedup(ids),
                }
            }),
    {
        proof {
            use_type_invariant(&*self);
        }
        let ghost ids = forward_ids@.map_values(|s: String| s@);
        let mut unique: Vec<String> = Vec::new();
        let mut i: usize = 0;
        while i < forward_ids.len()
            invariant
                ids == forward_ids@.map_values(|s: String| s@),
                i <= forward_ids@.len(),
                self.wf(),
                forall|j: int| 0 <= j < i ==> self.view().contains_key(#[trigger] ids[j]),
                unique@.map_values(|s: String| s@) == dedup(ids.take(i as int)),
            decreases forward_ids@.len() - i,
        {
            let id = &forward_ids[i];
            if self.locate(id.as_str()).is_none() {
                proof {
                    assert(!self.view().contains_key(ids[i as int]));
                    let k = choose|k: int| 0 <= k < ids.len() && !self.view().contains_key(#[trigger] ids[k])
                        && forall|j: int| 0 <= j < k ==> self.view().contains_key(#[trigger] ids[j]);
                    if k < i {
                        assert(self.view().contains_key(ids[k]));
                    } else if k > i {
                        assert(self.view().contains_key(ids[i as int]));
                    }
                }
                let mut msg = String::from_str("unknown forward_id `");
                msg.append(id.as_str());
                msg.append("`");
                return Err(msg);
            }
            let ghost d = dedup(ids.take(i as int));
            proof {
                assert(ids.take(i + 1).drop_last() =~= ids.take(i as int));
                assert(ids.take(i + 1).last() == ids[i as int]);
            }
            let mut seen = false;
            let mut k: usize = 0;
            while k < unique.len()
                invariant
                    k <= unique@.len(),
                    unique@.map_values(|s: String| s@) == d,
                    seen ==> d.contains(forward_ids@[i as int]@),
                    !seen ==> forall|j: int| 0 <= j < k ==> d[j] != forward_ids@[i as int]@,
                    i < forward_ids@.len(),
                decreases unique@.len() - k,
            {
                if unique[k] == forward_ids[i] {
                    assert(d[k as int] == forward_ids@[i as int]@);
                    seen = true;
                }
                k = k + 1;
            }
            if !seen {
                proof {
                    assert(!d.contains(forward_ids@[i as int]@));
                }
                unique.push(forward_ids[i].clone());
                proof {
                    assert(unique@.map_values(|s: String| s@) =~= d.push(ids[i as int]));
                }
            }
            i = i + 1;
        }
        proof {
            assert(ids.take(i as int) =~= ids);
            assert(!(exists|j: int| 0 <= j < ids.len() && !self.view().contains_key(#[trigger] ids[j])));
        }
        Ok(unique)
    }

    /// Takes the records a close request names out of the store, in request
    /// order and without repeats; on an unknown id nothing is taken.
    pub fn take_close_candidates(&mut self, forward_ids: &Vec<String>) -> (res: Result<Vec<PortForwardRecord<H>>, String>)
        ensures
            ({
                let ids = forward_ids@.map_values(|s: String| s@);
                let u = dedup(ids);
                match first_unknown(ids, old(self).view()) {
                    Some(i) => res is Err && res->Err_0@ == unknown_forward_text(ids[i])
                        && final(self).view() == old(self).view(),
                    None => {
                        &&& res is Ok
                        &&& res->Ok_0@.len() == u.len()
                        &&& forall|k: int| 0 <= k < u.len() ==> #[trigger] res->Ok_0@[k] == old(self).view()[u[k]]
                        &&& final(self).view() == old(self).view().remove_keys(u.to_set())
                    },
                }
            }),
    {
        proof {
            use_type_invariant(&*self);
        }
        let unique = match self.validated_unique_close_ids(forward_ids) {
            Ok(unique) => unique,
            Err(e) => return Err(e),
        };
        let ghost u = unique@.map_values(|s: String| s@);
        let ghost m0 = self.view();
        proof {
            lemma_dedup_props(forward_ids@.map_values(|s: String| s@));
            assert forall|k: int| 0 <= k < u.len() implies m0.contains_key(#[trigger] u[k]) by {
                let ids = forward_ids@.map_values(|s: String| s@);
                assert(ids.contains(u[k]));
                let j = choose|j: int| 0 <= j < ids.len() && ids[j] == u[k];
                assert(m0.contains_key(ids[j]));
            }
        }
        let mut candidates: Vec<PortForwardRecord<H>> = Vec::new();
        let mut k: usize = 0;
        while k < unique.len()
            invariant
                u == unique@.map_values(|s: String| s@),
                k <= u.len(),
                self.wf(),
                forall|a: int, b: int| 0 <= a < b < u.len() ==> u[a] != u[b],
                forall|j: int| 0 <= j < u.len() ==> m0.contains_key(#[trigger] u[j]),
                self.view() == m0.remove_keys(u.take(k as int).to_set()),
                candidates@.len() == k,
                forall|j: int| 0 <= j < k ==> #[trigger] candidates@[j] == m0[u[j]],
            decreases u.len() - k,
        {
            proof {
                assert(!u.take(k as int).to_set().contains(u[k as int])) by {
                    if u.take(k as int).to_set().contains(u[k as int]) {
                        let j = choose|j: int| 0 <= j < k && u.take(k as int)[j] == u[k as int];
                        assert(u[j] == u[k as int]);
                    }
                }
                assert(self.view().contains_key(u[k as int]));
            }
            let i = self.locate(unique[k].as_str()).unwrap();
            let ghost s = self.records@;
            let rec = self.remove_at(i);
            proof {
                use_type_invariant(&*self);
                lemma_map_at(s, i as int);
            }
            candidates.push(rec);
            proof {
                let t1 = u.take(k + 1);
                let t0 = u.take(k as int);
                assert forall|x: Seq<char>| t1.to_set().contains(x) <==> t0.to_set().insert(u[k as int]).contains(x) by {
                    if t1.contains(x) {
                        let j = choose|j: int| 0 <= j < t1.len() && t1[j] == x;
                        if j < k {
                            assert(t0[j] == x);
                        }
                    }
                    if t0.contains(x) {
                        let j = choose|j: int| 0 <= j < t0.len() && t0[j] == x;
                        assert(t1[j] == x);
                    }
                    if x == u[k as int] {
                        assert(t1[k as int] == x);
                    }
                }
                assert(t1.to_set() =~= t0.to_set().insert(u[k as int]));
                assert(self.view() =~= m0.remove_keys(u.take(k + 1).to_set()));
            }
            k = k + 1;
        }
        proof {
            assert(u.take(k as int) =~= u);
        }
        Ok(candidates)
    }

    /// Puts records back, in order, each replacing any record with its id.
    pub fn restore_close_candidates(&mut self, records: Vec<PortForwardRecord<H>>)
        ensures
            final(self).view() == insert_all(old(self).view(), records@),
    {
        proof {
            use_type_invariant(&*self);
        }
        let ghost orig = records@;
        let ghost m0 = self.view();
        let mut records = records;
        let total = records.len();
        let mut n: usize = 0;
        while records.len() > 0
            invariant
                orig.len() == total,
                self.wf(),
                n <= orig.len(),
                n + records@.len() == orig.len(),
                records@ == orig.skip(n as int),
                self.view() == insert_all(m0, orig.take(n as int)),
            decreases records@.len(),
        {
            let r = records.remove(0);
            proof {
                assert(orig.take(n + 1).drop_last() =~= orig.take(n as int));
                assert(orig.take(n + 1).last() == r);
                assert(records@ =~= orig.skip(n + 1));
            }
            self.insert(r);
            proof {
                use_type_invariant(&*self);
            }
            n = n + 1;
        }
        proof {
            assert(orig.take(n as int) =~= orig);
        }
    }

    /// After closing the first of `remaining` failed with `err`: its entry
    /// is marked failed with the close error, and it and every record after
    /// it go back to the store, in order. The close request fails with the
    /// returned text.
    pub fn restore_after_failed_close(&mut self, remaining: Vec<PortForwardRecord<H>>, err: &str) -> (res: String)
        requires
            remaining@.len() > 0,
        ensures
            res@ == close_failure_text(remaining@[0].entry.forward_id@, err@),
            final(self).view() == insert_all(
                old(self).view(),
                remaining@.update(0, with_entry(remaining@[0], failed_entry(remaining@[0].entry, res))),
            ),
    {
        proof {
            use_type_invariant(&*self);
        }
        let ghost given = remaining@;
        let mut remaining = remaining;
        let mut first = remaining.remove(0);
        let mut message = String::from_str("closing port forward `");
        message.append(first.entry.forward_id.as_str());
        message.append("`: ");
        message.append(err);
        let ghost taken = first;
        mark_entry_failed(&mut first.entry, message.clone());
        remaining.insert(0, first);
        proof {
            assert(first == with_entry(taken, failed_entry(taken.entry, message)));
            assert(remaining@ =~= given.update(0, first));
        }
        self.restore_close_candidates(remaining);
        message
    }

    /// One step of a close request, after closing the first of the
    /// `candidates` it took: on success that forward's closed entry joins
    /// `closed` and the rest remain to be closed; on failure (`err`) the
    /// forward is marked failed, it and the rest go back to the store, and
    /// the request fails with the returned text.
    pub fn close_step(
        &mut self,
        candidates: Vec<PortForwardRecord<H>>,
        result: Result<(), String>,
        closed: &mut Vec<ForwardPortEntry>,
    ) -> (res: Result<Vec<PortForwardRecord<H>>, String>)
        requires
            candidates@.len() > 0,
        ensures
            match result {
                Ok(_) => {
                    &&& res matches Ok(rest) && rest@ == candidates@.drop_first()
                    &&& final(closed)@ == old(closed)@.push(spec_closed_entry(candidates@[0].entry))
                    &&& final(self).view() == old(self).view()
                },
                Err(e) => {
                    &&& res matches Err(m) && m@ == close_failure_text(candidates@[0].entry.forward_id@, e@)
                        && final(self).view() == insert_all(
                            old(self).view(),
                            candidates@.update(0, with_entry(candidates@[0], failed_entry(candidates@[0].entry, m))),
                        )
                    &&& final(closed)@ == old(closed)@
                },
            },
    {
        proof {
            use_type_invariant(&*self);
        }
        match result {
            Ok(()) => {
                let ghost given = candidates@;
                let mut rest = candidates;
                let first = rest.remove(0);
                proof {
                    assert(rest@ =~= given.drop_first());
                }
                closed.push(closed_entry(first.entry));
                Ok(rest)
            },
            Err(e) => Err(self.restore_after_failed_close(candidates, e.as_str())),
        }
    }

    /// Removes and returns every record; the reconnecting count drops to zero.
    pub fn drain(&mut self) -> (res: Vec<PortForwardRecord<H>>)
        ensures
            res@ == old(self).records(),
            final(self).view() == Map::<Seq<char>, PortForwardRecord<H>>::empty(),
    {
        proof {
            use_type_invariant(&*self);
        }
        let (out, _count) = self.into_parts();
        assert(self.view() =~= Map::<Seq<char>, PortForwardRecord<H>>::empty());
        out
    }
}

fn mark_side_reconnecting(e: ForwardPortEntry, role: ForwardPortSideRole, error: String, now: u64) -> (res: ForwardPortEntry)
    requires
        e.reconnect_attempts < u64::MAX,
    ensures
        res == reconnecting_entry(e, role, error, now),
{
    let mut e = e;
    e.reconnect_attempts = e.reconnect_attempts + 1;
    e.last_reconnect_at = Some(now);
    match role {
        ForwardPortSideRole::Listen => {
            e.listen_state.health = ForwardPortSideHealth::Reconnecting;
            e.listen_state.last_error = Some(error);
        },
        ForwardPortSideRole::Connect => {
            e.connect_state.health = ForwardPortSideHealth::Reconnecting;
            e.connect_state.last_error = Some(error);
        },
    }
    e.phase = derive_phase(&e);
    e
}

fn mark_connect_reopening(e: ForwardPortEntry, error: String, now: u64) -> (res: ForwardPortEntry)
    requires
        e.reconnect_attempts < u64::MAX,
    ensures
        res == reopening_entry(e, error, now),
{
    let mut e = e;
    e.reconnect_attempts = e.reconnect_attempts + 1;
    e.last_reconnect_at = Some(now);
    e.listen_state.health = ForwardPortSideHealth::Ready;
    e.listen_state.last_error = None;
    e.connect_state.health = ForwardPortSideHealth::Reconnecting;
    e.connect_state.last_error = Some(error);
    e.phase = derive_phase(&e);
    e
}

fn mark_side_ready(e: ForwardPortEntry, role: ForwardPortSideRole) -> (res: ForwardPortEntry)
    ensures
        res == ready_entry(e, role),
{
    let mut e = e;
    if e.status != ForwardPortStatus::Open {
        return e;
    }
    match role {
        ForwardPortSideRole::Listen => {
            e.listen_state.health = ForwardPortSideHealth::Ready;
            e.listen_state.last_error = None;
        },
        ForwardPortSideRole::Connect => {
            e.connect_state.health = ForwardPortSideHealth::Ready;
            e.connect_state.last_error = None;
        },
    }
    e.phase = derive_phase(&e);
    e
}

fn count_update(e: ForwardPortEntry, u: CounterUpdate) -> (res: ForwardPortEntry)
    requires
        counter_update_fits(e, u),
    ensures
        res == counted_entry(e, u),
{
    let mut e = e;
    match u {
        CounterUpdate::ReservedActiveStream => {
            e.active_tcp_streams = e.active_tcp_streams + 1;
        },
        CounterUpdate::DroppedDatagram => {
            e.dropped_udp_datagrams = e.dropped_udp_datagrams + 1;
        },
        CounterUpdate::DroppedStream => {
            e.dropped_tcp_streams = e.dropped_tcp_streams + 1;
        },
        CounterUpdate::DroppedActiveStreams(n) => {
            if n != 0 {
                e.dropped_tcp_streams = e.dropped_tcp_streams + n;
                e.active_tcp_streams = e.active_tcp_streams.saturating_sub(n);
            }
        },
        CounterUpdate::ReleasedActiveStream => {
            e.active_tcp_streams = e.active_tcp_streams.saturating_sub(1);
        },
        CounterUpdate::ReportedDroppedStreams(n) => {
            let count = if n == 0 { 1 } else { n };
            e.dropped_tcp_streams = e.dropped_tcp_streams.saturating_add(count);
        },
        CounterUpdate::ReportedDroppedDatagrams(n) => {
            let count = if n == 0 { 1 } else { n };
            e.dropped_udp_datagrams = e.dropped_udp_datagrams.saturating_add(count);
        },
    }
    e
}

/// Moves the reconnecting count along when one entry enters or leaves the
/// reconnecting state.
pub fn adjust_reconnecting_count(count: &mut usize, before: bool, after: bool)
    requires
        !before && after ==> *old(count) < usize::MAX,
    ensures
        !before && after ==> *final(count) == *old(count) + 1,
        before && !after ==> *final(count) == if *old(count) == 0 { 0 } else { (*old(count) - 1) as usize },
        before == after ==> *final(count) == *old(count),
{
    if !before && after {
        *count = *count + 1;
    } else if before && !after {
        *count = if *count == 0 { 0 } else { *count - 1 };
    }
}

impl PortForwardFilter {
    /// Whether `entry` is selected.
    pub fn matches(&self, entry: &ForwardPortEntry) -> (res: bool)
        ensures
            res == filter_matches(*self, *entry),
    {
        if let Some(listen_side) = &self.listen_side {
            if !(entry.listen_side == *listen_side) {
                return false;
            }
        }
        if let Some(connect_side) = &self.connect_side {
            if !(entry.connect_side == *connect_side) {
                return false;
            }
        }
        if self.forward_ids.len() == 0 {
            return true;
        }
        let mut j: usize = 0;
        while j < self.forward_ids.len()
            invariant
                j <= self.forward_ids@.len(),
                forall|k: int| 0 <= k < j ==> #[trigger] self.forward_ids@[k]@ != entry.forward_id@,
                self.listen_side matches Some(l) ==> entry.listen_side@ == l@,
                self.connect_side matches Some(c) ==> entry.connect_side@ == c@,
            decreases self.forward_ids@.len() - j,
        {
            if self.forward_ids[j] == entry.forward_id {
                assert(self.forward_ids@[j as int]@ == entry.forward_id@);
                return true;
            }
            j = j + 1;
        }
        false
    }
}


/// A record found under a key of `record_map(s)` carries that key as its id.
proof fn lemma_record_map_keyed_by_id<H>(s: Seq<PortForwardRecord<H>>, k: Seq<char>)
    requires
        record_map(s).contains_key(k),
    ensures
        id_of(record_map(s)[k]) == k,
{
}

/// Inserting the first `n` taken records puts back exactly their ids.
proof fn lemma_insert_taken_prefix<H>(
    before: Map<Seq<char>, PortForwardRecord<H>>,
    u: Seq<Seq<char>>,
    taken: Seq<PortForwardRecord<H>>,
    n: int,
)
    requires
        0 <= n <= u.len(),
        taken.len() == u.len(),
        forall|a: int, b: int| 0 <= a < b < u.len() ==> u[a] != u[b],
        forall|k: int| 0 <= k < u.len() ==> before.contains_key(#[trigger] u[k]),
        forall|k: int| 0 <= k < u.len() ==> #[trigger] taken[k] == before[u[k]],
        forall|k: int| 0 <= k < u.len() ==> id_of(before[#[trigger] u[k]]) == u[k],
    ensures
        insert_all(before.remove_keys(u.to_set()), taken.take(n)) == before.remove_keys(u.skip(n).to_set()),
    decreases n,
{
    if n == 0 {
        assert(taken.take(0) =~= Seq::<PortForwardRecord<H>>::empty());
        assert(u.skip(0) =~= u);
    } else {
        lemma_insert_taken_prefix(before, u, taken, n - 1);
        assert(taken.take(n).drop_last() =~= taken.take(n - 1));
        assert(taken.take(n).last() == taken[n - 1]);
        let lo = u.skip(n - 1);
        let hi = u.skip(n);
        assert forall|x: Seq<char>| #![trigger lo.contains(x)] lo.contains(x) <==> (x == u[n - 1] || hi.contains(x)) by {
            if lo.contains(x) {
                let j = choose|j: int| 0 <= j < lo.len() && lo[j] == x;
                if j > 0 {
                    assert(hi[j - 1] == x);
                }
            }
            if hi.contains(x) {
                let j = choose|j: int| 0 <= j < hi.len() && hi[j] == x;
                assert(lo[j + 1] == x);
            }
            assert(lo[0] == u[n - 1]);
        }
        assert(!hi.contains(u[n - 1])) by {
            if hi.contains(u[n - 1]) {
                let j = choose|j: int| 0 <= j < hi.len() && hi[j] == u[n - 1];
                assert(u[n + j] == u[n - 1]);
            }
        }
        assert(before.remove_keys(lo.to_set()).insert(u[n - 1], before[u[n - 1]])
            =~= before.remove_keys(hi.to_set()));
    }
}

/// Putting back the records that a close took out of the store gives the
/// store as it was: a close that fails after taking its candidates loses
/// no forward.
pub proof fn lemma_restore_undoes_take<H>(
    store: PortForwardStore<H>,
    forward_ids: Seq<Seq<char>>,
    taken: Seq<PortForwardRecord<H>>,
)
    requires
        first_unknown(forward_ids, store.view()) is None,
        taken.len() == dedup(forward_ids).len(),
        forall|k: int| 0 <= k < taken.len() ==> #[trigger] taken[k] == store.view()[dedup(forward_ids)[k]],
    ensures
        insert_all(store.view().remove_keys(dedup(forward_ids).to_set()), taken) == store.view(),
{
    let m = store.view();
    let u = dedup(forward_ids);
    lemma_dedup_props(forward_ids);
    assert forall|k: int| 0 <= k < u.len() implies m.contains_key(#[trigger] u[k]) by {
        assert(forward_ids.contains(u[k]));
        let j = choose|j: int| 0 <= j < forward_ids.len() && forward_ids[j] == u[k];
        assert(m.contains_key(forward_ids[j]));
    }
    assert forall|k: int| 0 <= k < u.len() implies id_of(m[#[trigger] u[k]]) == u[k] by {
        lemma_record_map_keyed_by_id(store.records(), u[k]);
    }
    lemma_insert_taken_prefix(m, u, taken, u.len() as int);
    assert(taken.take(u.len() as int) =~= taken);
    assert(u.skip(u.len() as int).to_set() =~= Set::<Seq<char>>::empty());
    assert(m.remove_keys(Set::<Seq<char>>::empty()) =~= m);
}

/// The ids of the forwards of `s` that count as reconnecting.
pub open spec fn reconnecting_ids<H>(s: Seq<PortForwardRecord<H>>) -> Set<Seq<char>> {
    Set::new(|k: Seq<char>| exists|i: int| 0 <= i < s.len() && id_of(#[trigger] s[i]) == k && is_reconnecting(s[i].entry))
}

/// The ids of the forwards of a store view that count as reconnecting.
pub open spec fn reconnecting_in<H>(m: Map<Seq<char>, PortForwardRecord<H>>) -> Set<Seq<char>> {
    m.dom().filter(|k: Seq<char>| is_reconnecting(m[k].entry))
}

proof fn lemma_reconnecting_ids_count<H>(s: Seq<PortForwardRecord<H>>)
    requires
        sorted_by_id(s),
    ensures
        reconnecting_ids(s).finite(),
        reconnecting_ids(s).len() == count_reconnecting(s),
    decreases s.len(),
{
    if s.len() == 0 {
        assert(reconnecting_ids(s) =~= Set::<Seq<char>>::empty());
    } else {
        let p = s.drop_last();
        let last = s.last();
        assert(sorted_by_id(p)) by {
            assert forall|i: int, j: int| 0 <= i < j < p.len() implies seq_lt(#[trigger] id_of(p[i]), #[trigger] id_of(p[j])) by {
                assert(p[i] == s[i] && p[j] == s[j]);
            }
        }
        lemma_reconnecting_ids_count(p);
        assert(!reconnecting_ids(p).contains(id_of(last))) by {
            if reconnecting_ids(p).contains(id_of(last)) {
                let i = choose|i: int| 0 <= i < p.len() && id_of(#[trigger] p[i]) == id_of(last) && is_reconnecting(p[i].entry);
                assert(p[i] == s[i]);
                assert(seq_lt(id_of(s[i]), id_of(s[s.len() - 1])));
                lemma_lt_from_irreflexive(id_of(last), 0);
            }
        }
        if is_reconnecting(last.entry) {
            assert forall|k: Seq<char>| #[trigger] reconnecting_ids(s).contains(k) <==> reconnecting_ids(p).insert(id_of(last)).contains(k) by {
                if reconnecting_ids(s).contains(k) {
                    let i = choose|i: int| 0 <= i < s.len() && id_of(#[trigger] s[i]) == k && is_reconnecting(s[i].entry);
                    if i < p.len() {
                        assert(p[i] == s[i]);
                    }
                }
                if reconnecting_ids(p).contains(k) {
                    let i = choose|i: int| 0 <= i < p.len() && id_of(#[trigger] p[i]) == k && is_reconnecting(p[i].entry);
                    assert(p[i] == s[i]);
                }
                if k == id_of(last) {
                    assert(s[s.len() - 1] == last);
                }
            }
            assert(reconnecting_ids(s) =~= reconnecting_ids(p).insert(id_of(last)));
        } else {
            assert forall|k: Seq<char>| #[trigger] reconnecting_ids(s).contains(k) <==> reconnecting_ids(p).contains(k) by {
                if reconnecting_ids(s).contains(k) {
                    let i = choose|i: int| 0 <= i < s.len() && id_of(#[trigger] s[i]) == k && is_reconnecting(s[i].entry);
                    if i < p.len() {
                        assert(p[i] == s[i]);
                    } else {
                        assert(s[i] == last);
                    }
                }
                if reconnecting_ids(p).contains(k) {
                    let i = choose|i: int| 0 <= i < p.len() && id_of(#[trigger] p[i]) == k && is_reconnecting(p[i].entry);
                    assert(p[i] == s[i]);
                }
            }
            assert(reconnecting_ids(s) =~= reconnecting_ids(p));
        }
    }
}

proof fn lemma_reconnecting_ids_in_map<H>(s: Seq<PortForwardRecord<H>>)
    requires
        sorted_by_id(s),
    ensures
        reconnecting_ids(s) == reconnecting_in(record_map(s)),
{
    let m = record_map(s);
    assert forall|k: Seq<char>| #[trigger] reconnecting_ids(s).contains(k) <==> reconnecting_in(m).contains(k) by {
        if reconnecting_ids(s).contains(k) {
            let i = choose|i: int| 0 <= i < s.len() && id_of(#[trigger] s[i]) == k && is_reconnecting(s[i].entry);
            assert(has_id(s, k));
            let c = choose|j: int| 0 <= j < s.len() && id_of(#[trigger] s[j]) == k;
            if c != i {
                lemma_lt_from_irreflexive(k, 0);
                if c < i {
                    assert(seq_lt(id_of(s[c]), id_of(s[i])));
                } else {
                    assert(seq_lt(id_of(s[i]), id_of(s[c])));
                }
            }
            assert(m[k] == s[i]);
        }
        if reconnecting_in(m).contains(k) {
            let c = choose|j: int| 0 <= j < s.len() && id_of(#[trigger] s[j]) == k;
            assert(m[k] == s[c]);
        }
    }
    assert(reconnecting_ids(s) =~= reconnecting_in(m));
}

/// The reconnecting count a store keeps is the number of its forwards, by
/// id, that count as reconnecting: the reconnect limit bounds what the
/// store holds.
pub proof fn lemma_reconnecting_forwards_in_view<H>(store: PortForwardStore<H>)
    requires
        store.wf(),
    ensures
        reconnecting_in(store.view()).finite(),
        store.reconnecting_forwards() == reconnecting_in(store.view()).len(),
{
    lemma_reconnecting_ids_count(store.records());
    lemma_reconnecting_ids_in_map(store.records());
}


/// A filter selects exactly the entries that agree with every side it
/// names and, when it names forward ids, carry one of them: an entry on
/// another listen side, on another connect side, or with an id the filter
/// does not name is never selected.
pub proof fn lemma_filter_selects_exactly(f: PortForwardFilter, e: ForwardPortEntry)
    ensures
        f.listen_side matches Some(l) && e.listen_side@ != l@ ==> !filter_matches(f, e),
        f.connect_side matches Some(c) && e.connect_side@ != c@ ==> !filter_matches(f, e),
        f.forward_ids@.len() > 0 && (forall|j: int| 0 <= j < f.forward_ids@.len() ==> #[trigger] f.forward_ids@[j]@ != e.forward_id@)
            ==> !filter_matches(f, e),
        (f.listen_side is None || e.listen_side@ == f.listen_side->0@)
            && (f.connect_side is None || e.connect_side@ == f.connect_side->0@)
            && (f.forward_ids@.len() == 0 || exists|j: int| 0 <= j < f.forward_ids@.len() && #[trigger] f.forward_ids@[j]@ == e.forward_id@)
            ==> filter_matches(f, e),
{
}

/// Every entry a listing returns agrees with the filter's listen and
/// connect sides, and every record whose entry agrees with both sides and
/// (when ids are named) carries a named id is listed.
pub proof fn lemma_listing_respects_filter<H>(s: Seq<PortForwardRecord<H>>, f: PortForwardFilter)
    ensures
        forall|k: int| 0 <= k < matching_entries(s, f).len() ==> {
            let e = #[trigger] matching_entries(s, f)[k];
            &&& (f.listen_side matches Some(l) ==> e.listen_side@ == l@)
            &&& (f.connect_side matches Some(c) ==> e.connect_side@ == c@)
            &&& (f.forward_ids@.len() == 0 || exists|j: int| 0 <= j < f.forward_ids@.len() && #[trigger] f.forward_ids@[j]@ == e.forward_id@)
        },
        forall|i: int| 0 <= i < s.len()
            && (f.listen_side is None || s[i].entry.listen_side@ == f.listen_side->0@)
            && (f.connect_side is None || s[i].entry.connect_side@ == f.connect_side->0@)
            && (f.forward_ids@.len() == 0 || exists|j: int| 0 <= j < f.forward_ids@.len() && #[trigger] f.forward_ids@[j]@ == s[i].entry.forward_id@)
            ==> matching_entries(s, f).contains(#[trigger] s[i].entry),
    decreases s.len(),
{
    if s.len() > 0 {
        let t = s.drop_last();
        lemma_listing_respects_filter(t, f);
        lemma_filter_selects_exactly(f, s.last().entry);
        let prev = matching_entries(t, f);
        let m = matching_entries(s, f);
        assert forall|k: int| 0 <= k < m.len() implies {
            let e = #[trigger] m[k];
            &&& (f.listen_side matches Some(l) ==> e.listen_side@ == l@)
            &&& (f.connect_side matches Some(c) ==> e.connect_side@ == c@)
            &&& (f.forward_ids@.len() == 0 || exists|j: int| 0 <= j < f.forward_ids@.len() && #[trigger] f.forward_ids@[j]@ == e.forward_id@)
        } by {
            if k < prev.len() {
                assert(m[k] == prev[k]);
            } else {
                assert(m[k] == s.last().entry);
            }
        }
        assert forall|i: int| 0 <= i < s.len()
            && (f.listen_side is None || s[i].entry.listen_side@ == f.listen_side->0@)
            && (f.connect_side is None || s[i].entry.connect_side@ == f.connect_side->0@)
            && (f.forward_ids@.len() == 0 || exists|j: int| 0 <= j < f.forward_ids@.len() && #[trigger] f.forward_ids@[j]@ == s[i].entry.forward_id@)
            implies m.contains(#[trigger] s[i].entry) by {
            lemma_filter_selects_exactly(f, s[i].entry);
            if i < t.len() {
                assert(t[i] == s[i]);
                assert(prev.contains(t[i].entry));
                let k = choose|k: int| 0 <= k < prev.len() && prev[k] == t[i].entry;
                assert(m[k] == prev[k]);
            } else {
                assert(m[m.len() - 1] == s[i].entry);
            }
        }
    }
}

/// The side-pair count is the number of records whose listen side and
/// connect side both are the given pair; a record on another listen or
/// connect side never counts.
pub proof fn lemma_side_pair_count_is_filter<H>(s: Seq<PortForwardRecord<H>>, listen: Seq<char>, connect: Seq<char>)
    ensures
        count_side_pair(s, listen, connect)
            == s.filter(|r: PortForwardRecord<H>| r.entry.listen_side@ == listen && r.entry.connect_side@ == connect).len(),
        count_side_pair(s, listen, connect) <= s.len(),
    decreases s.len(),
{
    reveal_with_fuel(Seq::filter, 1);
    if s.len() > 0 {
        lemma_side_pair_count_is_filter(s.drop_last(), listen, connect);
    }
}

/// Adding a record on another side pair leaves the count as it was;
/// adding one on the pair adds one.
pub proof fn lemma_side_pair_count_push<H>(s: Seq<PortForwardRecord<H>>, r: PortForwardRecord<H>, listen: Seq<char>, connect: Seq<char>)
    ensures
        r.entry.listen_side@ != listen || r.entry.connect_side@ != connect
            ==> count_side_pair(s.push(r), listen, connect) == count_side_pair(s, listen, connect),
        r.entry.listen_side@ == listen && r.entry.connect_side@ == connect
            ==> count_side_pair(s.push(r), listen, connect) == count_side_pair(s, listen, connect) + 1,
{
    assert(s.push(r).drop_last() =~= s);
}

/// What each counter update does to a forward's counters, and that it
/// touches nothing else: dropping `n > 0` active streams adds exactly `n`
/// dropped streams and releases `n` active ones (down to zero); a report
/// counts at least one drop and saturates.
pub proof fn lemma_counter_updates(e: ForwardPortEntry, u: CounterUpdate)
    requires
        counter_update_fits(e, u),
    ensures
        ({
            let r = counted_entry(e, u);
            let (a, d, g) = (e.active_tcp_streams as int, e.dropped_tcp_streams as int, e.dropped_udp_datagrams as int);
            &&& (ForwardPortEntry {
                active_tcp_streams: e.active_tcp_streams,
                dropped_tcp_streams: e.dropped_tcp_streams,
                dropped_udp_datagrams: e.dropped_udp_datagrams,
                ..r
            }) == e
            &&& match u {
                CounterUpdate::ReservedActiveStream =>
                    r.active_tcp_streams == a + 1 && r.dropped_tcp_streams == d && r.dropped_udp_datagrams == g,
                CounterUpdate::DroppedDatagram =>
                    r.active_tcp_streams == a && r.dropped_tcp_streams == d && r.dropped_udp_datagrams == g + 1,
                CounterUpdate::DroppedStream =>
                    r.active_tcp_streams == a && r.dropped_tcp_streams == d + 1 && r.dropped_udp_datagrams == g,
                CounterUpdate::DroppedActiveStreams(n) =>
                    r.dropped_tcp_streams == d + n
                    && r.active_tcp_streams == (if a >= n { a - n } else { 0 })
                    && r.dropped_udp_datagrams == g,
                CounterUpdate::ReleasedActiveStream =>
                    r.active_tcp_streams == (if a >= 1 { a - 1 } else { 0 }) && r.dropped_tcp_streams == d && r.dropped_udp_datagrams == g,
                CounterUpdate::ReportedDroppedStreams(n) => {
                    let c = if n == 0 { 1 } else { n as int };
                    r.dropped_tcp_streams == (if d + c > u64::MAX { u64::MAX as int } else { d + c })
                        && r.active_tcp_streams == a && r.dropped_udp_datagrams == g
                },
                CounterUpdate::ReportedDroppedDatagrams(n) => {
                    let c = if n == 0 { 1 } else { n as int };
                    r.dropped_udp_datagrams == (if g + c > u64::MAX { u64::MAX as int } else { g + c })
                        && r.active_tcp_streams == a && r.dropped_tcp_streams == d
                },
            }
        }),
{
}

} // verus!
