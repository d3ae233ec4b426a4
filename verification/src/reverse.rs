//! Reverse-mode targets: daemons that dial the broker and park idle
//! connections ("lanes") in a pool, from which the broker takes one per
//! request. The pool serves one daemon instance at a time; a new instance
//! retires the old one and its queued lanes.
use std::collections::VecDeque;
use vstd::prelude::*;

use crate::text::str_eq;

verus! {

/// How many retired daemon instances a pool remembers.
pub const MAX_RETIRED_DAEMON_INSTANCES: usize = 64;

/// A parked connection of daemon instance `daemon_instance_id`. `reset_epoch`
/// is the pool's reset count when the lane was parked: once the pool resets
/// its connections, lanes of an older epoch are to be cut.
pub struct ReverseLane<L> {
    pub io: L,
    pub daemon_instance_id: String,
    pub reset_epoch: u64,
}

/// What parking a lane did.
#[derive(Debug)]
pub enum LaneInsertOutcome {
    Added,
    Replaced { previous_daemon_instance_id: String, dropped_lanes: usize },
}

/// What taking a lane found.
pub enum LaneTake<L> {
    Lane(ReverseLane<L>),
    /// No lane is parked; wait for one.
    Empty,
    /// No lane is parked and the pool is closed.
    Closed,
}

pub open spec fn pool_closed_text() -> Seq<char> {
    "reverse lane pool is closed"@
}

pub open spec fn retired_instance_text() -> Seq<char> {
    "reverse lane belongs to a retired daemon instance"@
}

/// The retired list after `id` joins it: oldest forgotten beyond the cap.
pub open spec fn retire(retired: Seq<Seq<char>>, id: Seq<char>) -> Seq<Seq<char>> {
    let r = retired.push(id);
    if r.len() > MAX_RETIRED_DAEMON_INSTANCES { r.drop_first() } else { r }
}

/// The lanes of one reverse target.
pub struct LanePool<L> {
    lanes: VecDeque<ReverseLane<L>>,
    active_daemon_instance_id: Option<String>,
    retired_daemon_instance_ids: VecDeque<String>,
    reset_epoch: u64,
    closed: bool,
}

pub open spec fn lane_ids<L>(lanes: Seq<ReverseLane<L>>) -> Seq<Seq<char>> {
    lanes.map_values(|l: ReverseLane<L>| l.daemon_instance_id@)
}

impl<L> LanePool<L> {
    /// Instance id of each parked lane, oldest first.
    pub closed spec fn queued(&self) -> Seq<Seq<char>> {
        lane_ids(self.lanes@)
    }

    pub closed spec fn lanes(&self) -> Seq<ReverseLane<L>> {
        self.lanes@
    }

    pub closed spec fn active(&self) -> Option<Seq<char>> {
        match self.active_daemon_instance_id {
            Some(a) => Some(a@),
            None => None,
        }
    }

    pub closed spec fn retired(&self) -> Seq<Seq<char>> {
        self.retired_daemon_instance_ids@.map_values(|s: String| s@)
    }

    pub closed spec fn epoch(&self) -> u64 {
        self.reset_epoch
    }

    pub closed spec fn is_closed(&self) -> bool {
        self.closed
    }

    /// Parked lanes all belong to the active instance, which is never a
    /// retired one, and the retired list stays within its cap. Every pool
    /// keeps this at all times.
    #[verifier::type_invariant]
    pub open spec fn wf(self) -> bool {
        &&& self.retired().len() <= MAX_RETIRED_DAEMON_INSTANCES
        &&& forall|i: int| 0 <= i < self.queued().len() ==> self.active() == Some(#[trigger] self.queued()[i])
        &&& self.active() matches Some(a) ==> !self.retired().contains(a)
        &&& forall|i: int| 0 <= i < self.lanes().len() ==> (#[trigger] self.lanes()[i]).reset_epoch == self.epoch()
    }

    pub fn new() -> (res: Self)
        ensures
            res.queued().len() == 0,
            res.active() is None,
            res.retired().len() == 0,
            !res.is_closed(),
    {
        let res = LanePool {
            lanes: VecDeque::new(),
            active_daemon_instance_id: None,
            retired_daemon_instance_ids: VecDeque::new(),
            reset_epoch: 0,
            closed: false,
        };
        proof {
            assert(res.queued() =~= Seq::<Seq<char>>::empty());
            assert(res.retired() =~= Seq::<Seq<char>>::empty());
        }
        res
    }

    fn is_retired(&self, id: &str) -> (res: bool)
        ensures
            res == self.retired().contains(id@),
    {
        let mut i: usize = 0;
        while i < self.retired_daemon_instance_ids.len()
            invariant
                i <= self.retired_daemon_instance_ids@.len(),
                forall|j: int| 0 <= j < i ==> (#[trigger] self.retired()[j]) != id@,
            decreases self.retired_daemon_instance_ids@.len() - i,
        {
            if str_eq(self.retired_daemon_instance_ids[i].as_str(), id) {
                assert(self.retired()[i as int] == id@);
                return true;
            }
            i = i + 1;
        }
        proof {
            if self.retired().contains(id@) {
                let j = choose|j: int| 0 <= j < self.retired().len() && self.retired()[j] == id@;
                assert(self.retired()[j] != id@);
            }
        }
        false
    }

    /// Parks a lane of daemon instance `daemon_instance_id`. A lane of the
    /// active instance joins the queue; one of a new instance makes it the
    /// active one, retires the old one and drops its queued lanes; one of a
    /// retired instance, or any lane once the pool is closed, is refused.
    pub fn insert(&mut self, io: L, daemon_instance_id: String) -> (res: Result<LaneInsertOutcome, String>)
        ensures
            final(self).is_closed() == old(self).is_closed(),
            final(self).epoch() == old(self).epoch(),
            if old(self).is_closed() {
                res matches Err(e) && e@ == pool_closed_text() && final(self).lanes() == old(self).lanes() && final(self).queued() == old(self).queued()
                    && final(self).active() == old(self).active() && final(self).retired() == old(self).retired()
            } else if old(self).retired().contains(daemon_instance_id@) {
                res matches Err(e) && e@ == retired_instance_text() && final(self).lanes() == old(self).lanes() && final(self).queued() == old(self).queued()
                    && final(self).active() == old(self).active() && final(self).retired() == old(self).retired()
            } else {
                &&& final(self).active() == Some(daemon_instance_id@)
                &&& match old(self).active() {
                    Some(a) => if a != daemon_instance_id@ {
                        &&& res matches Ok(LaneInsertOutcome::Replaced { previous_daemon_instance_id, dropped_lanes })
                            && previous_daemon_instance_id@ == a && dropped_lanes == old(self).queued().len()
                        &&& final(self).queued() == seq![daemon_instance_id@]
                        &&& final(self).lanes().len() == 1
                        &&& final(self).retired() == retire(old(self).retired(), a)
                    } else {
                        &&& res matches Ok(LaneInsertOutcome::Added)
                        &&& final(self).queued() == old(self).queued().push(daemon_instance_id@)
                        &&& final(self).lanes().drop_last() == old(self).lanes()
                        &&& final(self).retired() == old(self).retired()
                    },
                    None => {
                        &&& res matches Ok(LaneInsertOutcome::Added)
                        &&& final(self).queued() == old(self).queued().push(daemon_instance_id@)
                        &&& final(self).lanes().drop_last() == old(self).lanes()
                        &&& final(self).retired() == old(self).retired()
                    },
                }
                &&& final(self).lanes().last().io == io
            },
    {
        proof {
            use_type_invariant(&*self);
        }
        if self.closed {
            return Err(String::from_str("reverse lane pool is closed"));
        }
        if self.is_retired(daemon_instance_id.as_str()) {
            return Err(String::from_str("reverse lane belongs to a retired daemon instance"));
        }
        let ghost q0 = self.queued();
        let ghost r0 = self.retired();
        let ghost l0 = self.lanes@;
        let ghost a0 = self.active();
        let ghost id = daemon_instance_id@;
        let mut lanes: VecDeque<ReverseLane<L>> = VecDeque::new();
        std::mem::swap(&mut lanes, &mut self.lanes);
        let mut retired: VecDeque<String> = VecDeque::new();
        std::mem::swap(&mut retired, &mut self.retired_daemon_instance_ids);
        let outcome = match &self.active_daemon_instance_id {
            Some(active) => {
                if !str_eq(active.as_str(), daemon_instance_id.as_str()) {
                    let previous = active.clone();
                    let dropped = lanes.len();
                    lanes = VecDeque::new();
                    retired.push_back(previous.clone());
                    if retired.len() > MAX_RETIRED_DAEMON_INSTANCES {
                        let _ = retired.pop_front();
                    }
                    proof {
                        assert(retired@.map_values(|s: String| s@) =~= retire(r0, previous@));
                    }
                    LaneInsertOutcome::Replaced { previous_daemon_instance_id: previous, dropped_lanes: dropped }
                } else {
                    LaneInsertOutcome::Added
                }
            },
            None => LaneInsertOutcome::Added,
        };
        let ghost l1 = lanes@;
        proof {
            assert(l1.len() == 0 || l1 == l0);
            assert forall|i: int| 0 <= i < l1.len() implies (#[trigger] l1[i]).reset_epoch == self.reset_epoch
                && l1[i].daemon_instance_id@ == id by {
                assert(l0[i] == l1[i]);
                assert(old(self).lanes()[i].reset_epoch == old(self).epoch());
                assert(q0[i] == l0[i].daemon_instance_id@);
                assert(a0 == Some(q0[i]));
            }
        }
        self.active_daemon_instance_id = Some(daemon_instance_id.clone());
        lanes.push_back(ReverseLane { io, daemon_instance_id, reset_epoch: self.reset_epoch });
        proof {
            let rv = retired@.map_values(|s: String| s@);
            assert(rv == r0 || rv == retire(r0, a0->0));
            assert forall|x: Seq<char>| rv.contains(x) implies x != id by {
                if rv.contains(x) && x == id {
                    let j = choose|j: int| 0 <= j < rv.len() && rv[j] == x;
                    if rv == r0 {
                        assert(r0.contains(id));
                    } else {
                        let r = r0.push(a0->0);
                        if r.len() > MAX_RETIRED_DAEMON_INSTANCES {
                            assert(rv[j] == r[j + 1]);
                            if j + 1 < r0.len() {
                                assert(r0[j + 1] == x);
                            }
                        } else {
                            if j < r0.len() {
                                assert(r0[j] == x);
                            }
                        }
                    }
                }
            }
        }
        self.retired_daemon_instance_ids = retired;
        proof {
            assert(lane_ids(lanes@) =~= lane_ids(l1).push(id));
            assert forall|i: int| 0 <= i < lanes@.len() implies (#[trigger] lanes@[i]).reset_epoch == self.reset_epoch by {
                if i < l1.len() {
                    assert(lanes@[i] == l1[i]);
                }
            }
            assert forall|i: int| 0 <= i < lane_ids(lanes@).len() implies self.active() == Some(#[trigger] lane_ids(lanes@)[i]) by {
                if i < l1.len() {
                    assert(lanes@[i] == l1[i]);
                }
            }
        }
        self.lanes = lanes;
        proof {
            assert(self.queued() =~= lane_ids(l1).push(id));
            if l1.len() == 0 {
                assert(lane_ids(l1) =~= Seq::<Seq<char>>::empty());
            }
            if a0 is None {
                assert(q0.len() == 0) by {
                    if q0.len() > 0 {
                        assert(a0 == Some(q0[0]));
                    }
                }
                assert(l0.len() == 0);
            }
        }
        Ok(outcome)
    }

    /// Drops every parked lane and starts a new reset epoch, so lanes taken
    /// before are to be cut too; returns how many were dropped.
    pub fn reset_connections(&mut self) -> (res: usize)
        ensures
            res == old(self).queued().len(),
            final(self).queued().len() == 0,
            final(self).epoch() != old(self).epoch(),
            final(self).active() == old(self).active(),
            final(self).retired() == old(self).retired(),
            final(self).is_closed() == old(self).is_closed(),
    {
        proof {
            use_type_invariant(&*self);
        }
        let dropped = self.lanes.len();
        self.lanes = VecDeque::new();
        proof {
            assert(self.lanes@.len() == 0);
            assert(self.queued() =~= Seq::<Seq<char>>::empty());
        }
        self.reset_epoch = if self.reset_epoch == u64::MAX { 0 } else { self.reset_epoch + 1 };
        proof {
            assert(self.queued() =~= Seq::<Seq<char>>::empty());
        }
        dropped
    }

    /// Whether a lane taken earlier has been cut by a reset since.
    pub fn is_reset(&self, lane: &ReverseLane<L>) -> (res: bool)
        ensures
            res == (lane.reset_epoch != self.epoch()),
    {
        lane.reset_epoch != self.reset_epoch
    }

    /// Takes the oldest parked lane.
    pub fn take(&mut self) -> (res: LaneTake<L>)
        ensures
            final(self).active() == old(self).active(),
            final(self).retired() == old(self).retired(),
            final(self).epoch() == old(self).epoch(),
            final(self).is_closed() == old(self).is_closed(),
            if old(self).queued().len() > 0 {
                &&& res matches LaneTake::Lane(l) && l == old(self).lanes()[0]
                &&& final(self).queued() == old(self).queued().drop_first()
            } else {
                &&& final(self).queued() == old(self).queued()
                &&& if old(self).is_closed() { res is Closed } else { res is Empty }
            },
    {
        proof {
            use_type_invariant(&*self);
        }
        let mut lanes: VecDeque<ReverseLane<L>> = VecDeque::new();
        std::mem::swap(&mut lanes, &mut self.lanes);
        let ghost l0 = lanes@;
        let taken = lanes.pop_front();
        proof {
            assert forall|i: int| 0 <= i < lanes@.len() implies (#[trigger] lanes@[i]).reset_epoch == self.reset_epoch
                && self.active() == Some(lanes@[i].daemon_instance_id@) by {
                assert(lanes@[i] == l0[i + 1]);
                assert(old(self).lanes()[i + 1].reset_epoch == old(self).epoch());
                assert(lane_ids(l0)[i + 1] == l0[i + 1].daemon_instance_id@);
            }
            assert forall|i: int| 0 <= i < lane_ids(lanes@).len() implies self.active() == Some(#[trigger] lane_ids(lanes@)[i]) by {
                assert(lanes@[i] == l0[i + 1]);
            }
        }
        self.lanes = lanes;
        match taken {
            Some(lane) => {
                proof {
                    assert(self.queued() =~= old(self).queued().drop_first());
                }
                LaneTake::Lane(lane)
            },
            None => {
                proof {
                    assert(self.queued() =~= old(self).queued());
                }
                if self.closed {
                    LaneTake::Closed
                } else {
                    LaneTake::Empty
                }
            },
        }
    }

    /// Refuses further lanes; waiting takers give up.
    pub fn close(&mut self)
        ensures
            final(self).is_closed(),
            final(self).queued() == old(self).queued(),
            final(self).active() == old(self).active(),
            final(self).retired() == old(self).retired(),
    {
        proof {
            use_type_invariant(&*self);
            assert forall|i: int| 0 <= i < lane_ids(self.lanes@).len() implies self.active() == Some(#[trigger] lane_ids(self.lanes@)[i]) by {
                assert(self.queued()[i] == lane_ids(self.lanes@)[i]);
            }
            assert forall|i: int| 0 <= i < self.lanes@.len() implies (#[trigger] self.lanes@[i]).reset_epoch == self.reset_epoch by {
                assert(self.lanes()[i] == self.lanes@[i]);
            }
        }
        self.closed = true;
    }
}

/// A daemon's registration on a new lane.
pub struct ReverseRegistration {
    pub protocol_version: u32,
    pub target: String,
    pub daemon_instance_id: String,
    pub bearer_token: Option<String>,
}

pub open spec fn opt_text(o: Option<String>) -> Option<Seq<char>> {
    match o {
        Some(s) => Some(s@),
        None => None,
    }
}

pub open spec fn unsupported_version_text(v: u32) -> Seq<char> {
    "unsupported reverse protocol version "@ + crate::text::decimal(v as nat)
}

/// The checks on a registration, in the broker's order. `expected_token`
/// is `None` for an unknown target, else the target's configured token;
/// `authenticated_target` is the TLS client's common name, if any.
pub open spec fn spec_check_registration(
    r: ReverseRegistration,
    expected_version: u32,
    expected_token: Option<Option<Seq<char>>>,
    authenticated_target: Option<Seq<char>>,
) -> Result<(), Seq<char>> {
    if r.protocol_version != expected_version {
        Err(unsupported_version_text(r.protocol_version))
    } else if expected_token is None {
        Err("reverse lane registered an unknown target"@)
    } else if authenticated_target matches Some(t) && t != r.target@ {
        Err("reverse TLS client certificate identity does not match registered target"@)
    } else if expected_token->0 != opt_text(r.bearer_token) {
        Err("reverse lane authentication failed"@)
    } else {
        Ok(())
    }
}

fn opt_str_eq(a: &Option<String>, b: &Option<String>) -> (res: bool)
    ensures
        res == (opt_text(*a) == opt_text(*b)),
{
    match (a, b) {
        (Some(x), Some(y)) => str_eq(x.as_str(), y.as_str()),
        (None, None) => true,
        _ => false,
    }
}

/// Decides whether a registering lane is accepted.
pub fn check_registration(
    registration: &ReverseRegistration,
    expected_version: u32,
    expected_token: &Option<Option<String>>,
    authenticated_target: &Option<String>,
) -> (res: Result<(), String>)
    ensures
        match res {
            Ok(_) => spec_check_registration(*registration, expected_version, match *expected_token {
                Some(t) => Some(opt_text(t)),
                None => None,
            }, opt_text(*authenticated_target)) is Ok,
            Err(e) => spec_check_registration(*registration, expected_version, match *expected_token {
                Some(t) => Some(opt_text(t)),
                None => None,
            }, opt_text(*authenticated_target)) == Err::<(), Seq<char>>(e@),
        },
{
    if registration.protocol_version != expected_version {
        let mut out = String::from_str("unsupported reverse protocol version ");
        let n = crate::text::decimal_string(registration.protocol_version as u64);
        out.append(n.as_str());
        return Err(out);
    }
    let token = match expected_token {
        None => return Err(String::from_str("reverse lane registered an unknown target")),
        Some(t) => t,
    };
    if let Some(authenticated) = authenticated_target {
        if !str_eq(authenticated.as_str(), registration.target.as_str()) {
            return Err(String::from_str("reverse TLS client certificate identity does not match registered target"));
        }
    }
    if !opt_str_eq(token, &registration.bearer_token) {
        return Err(String::from_str("reverse lane authentication failed"));
    }
    Ok(())
}

} // verus!
