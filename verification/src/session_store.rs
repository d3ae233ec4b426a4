//! The broker's exec sessions: each public session id maps to the target
//! and daemon session behind it.
use vstd::prelude::*;

use crate::assoc::{assoc_map, keys_unique, lemma_assoc_absent, lemma_assoc_index, lemma_assoc_remove};
use crate::text::str_eq;

verus! {

/// One exec session the broker handed out.
#[derive(Debug)]
pub struct SessionRecord {
    pub session_id: String,
    pub target: String,
    pub daemon_session_id: String,
    pub daemon_instance_id: String,
    pub session_command: String,
}

impl SessionRecord {
    /// A copy of the record.
    pub fn duplicate(&self) -> (res: SessionRecord)
        ensures
            res == *self,
    {
        SessionRecord {
            session_id: self.session_id.clone(),
            target: self.target.clone(),
            daemon_session_id: self.daemon_session_id.clone(),
            daemon_instance_id: self.daemon_instance_id.clone(),
            session_command: self.session_command.clone(),
        }
    }
}

/// Whether a session belongs to daemon instance `instance` of `target`.
pub open spec fn of_instance(r: SessionRecord, target: Seq<char>, instance: Seq<char>) -> bool {
    r.target@ == target && r.daemon_instance_id@ == instance
}

/// How many of the records belong to that daemon instance.
pub open spec fn count_of_instance(s: Seq<SessionRecord>, target: Seq<char>, instance: Seq<char>) -> nat
    decreases s.len(),
{
    if s.len() == 0 {
        0
    } else {
        count_of_instance(s.drop_last(), target, instance) + if of_instance(s.last(), target, instance) { 1nat } else { 0nat }
    }
}

pub open spec fn keyed(s: Seq<SessionRecord>) -> Seq<(Seq<char>, SessionRecord)> {
    s.map_values(|r: SessionRecord| (r.session_id@, r))
}

/// The ids of the sessions of `m` that belong to daemon instance `instance`
/// of `target`.
pub open spec fn instance_sessions(m: Map<Seq<char>, SessionRecord>, target: Seq<char>, instance: Seq<char>) -> Set<Seq<char>> {
    m.dom().filter(|k: Seq<char>| of_instance(m[k], target, instance))
}

/// With unique session ids, the sessions of one daemon instance counted in
/// the records are those of the sessions map.
pub proof fn lemma_count_of_instance(s: Seq<SessionRecord>, target: Seq<char>, instance: Seq<char>)
    requires
        keys_unique(keyed(s)),
    ensures
        instance_sessions(assoc_map(keyed(s)), target, instance).finite(),
        instance_sessions(assoc_map(keyed(s)), target, instance).len() == count_of_instance(s, target, instance),
    decreases s.len(),
{
    let m = assoc_map(keyed(s));
    if s.len() == 0 {
        assert(instance_sessions(m, target, instance) =~= Set::<Seq<char>>::empty());
    } else {
        let p = s.drop_last();
        let last = s.last();
        assert(keyed(s).drop_last() =~= keyed(p));
        assert(keyed(s).last() == (last.session_id@, last));
        assert(keys_unique(keyed(p))) by {
            assert forall|i: int, j: int| 0 <= i < j < keyed(p).len() implies (#[trigger] keyed(p)[i]).0 != (#[trigger] keyed(p)[j]).0 by {
                assert(keyed(p)[i] == keyed(s)[i] && keyed(p)[j] == keyed(s)[j]);
            }
        }
        lemma_count_of_instance(p, target, instance);
        let mp = assoc_map(keyed(p));
        assert forall|i: int| 0 <= i < keyed(p).len() implies (#[trigger] keyed(p)[i]).0 != last.session_id@ by {
            assert(keyed(p)[i] == keyed(s)[i]);
            assert(keyed(s)[s.len() - 1].0 == last.session_id@);
        }
        lemma_assoc_absent(keyed(p), last.session_id@);
        assert(m == mp.insert(last.session_id@, last));
        let sp = instance_sessions(mp, target, instance);
        if of_instance(last, target, instance) {
            assert(instance_sessions(m, target, instance) =~= sp.insert(last.session_id@));
        } else {
            assert(instance_sessions(m, target, instance) =~= sp);
        }
    }
}

/// The position of the session with public id `session_id` in `records`.
fn find(records: &Vec<SessionRecord>, session_id: &str) -> (res: Option<usize>)
    ensures
        match res {
            Some(i) => i < records@.len() && records@[i as int].session_id@ == session_id@,
            None => forall|j: int| 0 <= j < records@.len() ==> (#[trigger] records@[j]).session_id@ != session_id@,
        },
{
    let mut i: usize = 0;
    while i < records.len()
        invariant
            i <= records@.len(),
            forall|j: int| 0 <= j < i ==> (#[trigger] records@[j]).session_id@ != session_id@,
        decreases records@.len() - i,
    {
        if str_eq(records[i].session_id.as_str(), session_id) {
            return Some(i);
        }
        i = i + 1;
    }
    None
}

/// The broker's sessions.
pub struct SessionStore {
    records: Vec<SessionRecord>,
}

impl SessionStore {
    pub closed spec fn records(&self) -> Seq<SessionRecord> {
        self.records@
    }

    /// Each session by its public id.
    pub open spec fn sessions(&self) -> Map<Seq<char>, SessionRecord> {
        assoc_map(keyed(self.records()))
    }

    /// No two sessions share a public id; every store keeps this at all
    /// times.
    #[verifier::type_invariant]
    pub open spec fn wf(self) -> bool {
        keys_unique(keyed(self.records()))
    }

    pub fn new() -> (res: Self)
        ensures
            res.sessions() == Map::<Seq<char>, SessionRecord>::empty(),
    {
        let res = SessionStore { records: Vec::new() };
        proof {
            assert(keyed(res.records()) =~= Seq::<(Seq<char>, SessionRecord)>::empty());
        }
        res
    }

    /// Records a new session under `session_id`, a fresh public id, and
    /// hands back its record.
    pub fn insert(
        &mut self,
        session_id: String,
        target: String,
        daemon_session_id: String,
        daemon_instance_id: String,
        session_command: String,
    ) -> (res: SessionRecord)
        ensures
            res == (SessionRecord { session_id, target, daemon_session_id, daemon_instance_id, session_command }),
            final(self).sessions() == old(self).sessions().insert(session_id@, res),
    {
        let record = SessionRecord { session_id, target, daemon_session_id, daemon_instance_id, session_command };
        let copy = record.duplicate();
        proof {
            use_type_invariant(&*self);
        }
        let mut records: Vec<SessionRecord> = Vec::new();
        std::mem::swap(&mut records, &mut self.records);
        let ghost s = keyed(records@);
        match find(&records, record.session_id.as_str()) {
            Some(i) => {
                proof {
                    assert(s[i as int].0 == record.session_id@);
                }
                records.set(i, record);
                proof {
                    assert(keyed(records@) =~= s.update(i as int, (s[i as int].0, copy)));
                    crate::assoc::lemma_assoc_update(s, i as int, copy);
                    assert forall|a: int, b: int| 0 <= a < b < keyed(records@).len()
                        implies (#[trigger] keyed(records@)[a]).0 != (#[trigger] keyed(records@)[b]).0 by {
                        assert(keyed(records@)[a].0 == s[a].0);
                        assert(keyed(records@)[b].0 == s[b].0);
                    }
                }
            },
            None => {
                records.push(record);
                proof {
                    assert(keyed(records@) =~= s.push((copy.session_id@, copy)));
                    assert(keyed(records@).drop_last() =~= s);
                    assert forall|a: int, b: int| 0 <= a < b < keyed(records@).len()
                        implies (#[trigger] keyed(records@)[a]).0 != (#[trigger] keyed(records@)[b]).0 by {
                        if b == s.len() {
                            assert(keyed(records@)[a].0 == s[a].0);
                        } else {
                            assert(keyed(records@)[a] == s[a]);
                            assert(keyed(records@)[b] == s[b]);
                        }
                    }
                }
            },
        }
        self.records = records;
        copy
    }

    /// The session with public id `session_id`.
    pub fn get(&self, session_id: &str) -> (res: Option<SessionRecord>)
        ensures
            match res {
                Some(r) => self.sessions().contains_key(session_id@) && r == self.sessions()[session_id@],
                None => !self.sessions().contains_key(session_id@),
            },
    {
        proof {
            use_type_invariant(self);
        }
        match find(&self.records, session_id) {
            Some(i) => {
                proof {
                    lemma_assoc_index(keyed(self.records()), i as int);
                }
                Some(self.records[i].duplicate())
            },
            None => {
                proof {
                    let s = keyed(self.records());
                    assert forall|j: int| 0 <= j < s.len() implies (#[trigger] s[j]).0 != session_id@ by {
                        assert(s[j].0 == self.records()[j].session_id@);
                    }
                    lemma_assoc_absent(s, session_id@);
                }
                None
            },
        }
    }

    /// Forgets the session with public id `session_id`.
    pub fn remove(&mut self, session_id: &str)
        ensures
            final(self).sessions() == old(self).sessions().remove(session_id@),
    {
        proof {
            use_type_invariant(&*self);
        }
        let mut records: Vec<SessionRecord> = Vec::new();
        std::mem::swap(&mut records, &mut self.records);
        let ghost s = keyed(records@);
        match find(&records, session_id) {
            Some(i) => {
                proof {
                    lemma_assoc_remove(s, i as int);
                }
                let _ = records.remove(i);
                proof {
                    assert(keyed(records@) =~= s.remove(i as int));
                }
            },
            None => {
                proof {
                    assert forall|j: int| 0 <= j < s.len() implies (#[trigger] s[j]).0 != session_id@ by {
                        assert(s[j].0 == records@[j].session_id@);
                    }
                    lemma_assoc_absent(s, session_id@);
                    assert(assoc_map(s).remove(session_id@) =~= assoc_map(s));
                }
            },
        }
        self.records = records;
    }

    /// Forgets every session of daemon instance `daemon_instance_id` of
    /// `target`, after the target came back as another instance; returns
    /// how many were forgotten. Sessions of other targets and of other
    /// instances stay.
    pub fn remove_target_instance(&mut self, target: &str, daemon_instance_id: &str) -> (res: usize)
        ensures
            res == count_of_instance(old(self).records(), target@, daemon_instance_id@),
            res == instance_sessions(old(self).sessions(), target@, daemon_instance_id@).len(),
            forall|k: Seq<char>| #[trigger] final(self).sessions().contains_key(k) <==> (old(self).sessions().contains_key(k)
                && !of_instance(old(self).sessions()[k], target@, daemon_instance_id@)),
            forall|k: Seq<char>| #[trigger] final(self).sessions().contains_key(k) ==> final(self).sessions()[k] == old(self).sessions()[k],
    {
        proof {
            use_type_invariant(&*self);
        }
        let ghost s0 = self.records();
        proof {
            lemma_count_of_instance(s0, target@, daemon_instance_id@);
        }
        let mut old_records: Vec<SessionRecord> = Vec::new();
        std::mem::swap(&mut old_records, &mut self.records);
        let mut kept: Vec<SessionRecord> = Vec::new();
        let mut removed: usize = 0;
        let mut i: usize = 0;
        while i < old_records.len()
            invariant
                old_records@ == s0,
                keys_unique(keyed(s0)),
                i <= s0.len(),
                removed == count_of_instance(s0.take(i as int), target@, daemon_instance_id@),
                removed <= i,
                keys_unique(keyed(kept@)),
                forall|k: int| 0 <= k < kept@.len() ==> exists|j: int| 0 <= j < i && #[trigger] kept@[k] == s0[j]
                    && !of_instance(s0[j], target@, daemon_instance_id@),
                forall|j: int| 0 <= j < i && !of_instance(s0[j], target@, daemon_instance_id@)
                    ==> exists|k: int| 0 <= k < kept@.len() && #[trigger] kept@[k] == s0[j],
            decreases s0.len() - i,
        {
            proof {
                assert(s0.take(i + 1).drop_last() =~= s0.take(i as int));
                assert(s0.take(i + 1).last() == s0[i as int]);
            }
            let hit = str_eq(old_records[i].target.as_str(), target)
                && str_eq(old_records[i].daemon_instance_id.as_str(), daemon_instance_id);
            if hit {
                removed = removed + 1;
            } else {
                let r = old_records[i].duplicate();
                let ghost prev = kept@;
                kept.push(r);
                proof {
                    assert(kept@ =~= prev.push(s0[i as int]));
                    assert forall|a: int, b: int| 0 <= a < b < keyed(kept@).len()
                        implies (#[trigger] keyed(kept@)[a]).0 != (#[trigger] keyed(kept@)[b]).0 by {
                        if b == prev.len() {
                            let j = choose|j: int| 0 <= j < i && #[trigger] kept@[a] == s0[j]
                                && !of_instance(s0[j], target@, daemon_instance_id@);
                            assert(keyed(s0)[j].0 != keyed(s0)[i as int].0);
                        } else {
                            assert(keyed(kept@)[a] == keyed(prev)[a]);
                            assert(keyed(kept@)[b] == keyed(prev)[b]);
                        }
                    }
                    assert forall|k: int| 0 <= k < kept@.len() implies exists|j: int| 0 <= j < i + 1 && #[trigger] kept@[k] == s0[j]
                        && !of_instance(s0[j], target@, daemon_instance_id@) by {
                        if k == prev.len() {
                            assert(kept@[k] == s0[i as int]);
                        } else {
                            assert(kept@[k] == prev[k]);
                        }
                    }
                    assert forall|j: int| 0 <= j < i + 1 && !of_instance(s0[j], target@, daemon_instance_id@)
                        implies exists|k: int| 0 <= k < kept@.len() && #[trigger] kept@[k] == s0[j] by {
                        if j == i {
                            assert(kept@[prev.len() as int] == s0[j]);
                        } else {
                            let k = choose|k: int| 0 <= k < prev.len() && #[trigger] prev[k] == s0[j];
                            assert(kept@[k] == s0[j]);
                        }
                    }
                }
            }
            i = i + 1;
        }
        proof {
            assert(s0.take(i as int) =~= s0);
            let m0 = assoc_map(keyed(s0));
            let m1 = assoc_map(keyed(kept@));
            assert forall|k: Seq<char>| #[trigger] m1.contains_key(k) <==> (m0.contains_key(k)
                && !of_instance(m0[k], target@, daemon_instance_id@)) by {
                lemma_assoc_keys(keyed(kept@), k);
                lemma_assoc_keys(keyed(s0), k);
                if m1.contains_key(k) {
                    let a = choose|a: int| 0 <= a < keyed(kept@).len() && (#[trigger] keyed(kept@)[a]).0 == k;
                    let j = choose|j: int| 0 <= j < s0.len() && #[trigger] kept@[a] == s0[j]
                        && !of_instance(s0[j], target@, daemon_instance_id@);
                    assert(keyed(s0)[j].0 == k);
                    lemma_assoc_index(keyed(s0), j);
                }
                if m0.contains_key(k) && !of_instance(m0[k], target@, daemon_instance_id@) {
                    let j = choose|j: int| 0 <= j < keyed(s0).len() && (#[trigger] keyed(s0)[j]).0 == k;
                    lemma_assoc_index(keyed(s0), j);
                    let a = choose|a: int| 0 <= a < kept@.len() && #[trigger] kept@[a] == s0[j];
                    assert(keyed(kept@)[a].0 == k);
                }
            }
            assert forall|k: Seq<char>| #[trigger] m1.contains_key(k) implies m1[k] == m0[k] by {
                lemma_assoc_keys(keyed(kept@), k);
                let a = choose|a: int| 0 <= a < keyed(kept@).len() && (#[trigger] keyed(kept@)[a]).0 == k;
                lemma_assoc_index(keyed(kept@), a);
                let j = choose|j: int| 0 <= j < s0.len() && #[trigger] kept@[a] == s0[j]
                    && !of_instance(s0[j], target@, daemon_instance_id@);
                assert(keyed(s0)[j].0 == k);
                lemma_assoc_index(keyed(s0), j);
            }
        }
        self.records = kept;
        removed
    }
}

/// A key is in an association list's map exactly when some pair has it.
proof fn lemma_assoc_keys<V>(s: Seq<(Seq<char>, V)>, k: Seq<char>)
    ensures
        assoc_map(s).contains_key(k) <==> exists|i: int| 0 <= i < s.len() && (#[trigger] s[i]).0 == k,
    decreases s.len(),
{
    if s.len() > 0 {
        lemma_assoc_keys(s.drop_last(), k);
        if assoc_map(s.drop_last()).contains_key(k) {
            let i = choose|i: int| 0 <= i < s.drop_last().len() && (#[trigger] s.drop_last()[i]).0 == k;
            assert(s[i] == s.drop_last()[i]);
        }
        if exists|i: int| 0 <= i < s.len() && (#[trigger] s[i]).0 == k {
            let i = choose|i: int| 0 <= i < s.len() && (#[trigger] s[i]).0 == k;
            if i < s.len() - 1 {
                assert(s.drop_last()[i] == s[i]);
            }
        }
    }
}

/// Removing a session that was just added under a fresh id leaves the
/// sessions as they were before the insert.
pub proof fn lemma_remove_undoes_insert(sessions: Map<Seq<char>, SessionRecord>, session_id: Seq<char>, record: SessionRecord)
    requires
        !sessions.contains_key(session_id),
    ensures
        sessions.insert(session_id, record).remove(session_id) == sessions,
{
    assert(sessions.insert(session_id, record).remove(session_id) =~= sessions);
}

} // verus!
