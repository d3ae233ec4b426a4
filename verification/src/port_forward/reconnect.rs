//! How a forward retries reopening a lost tunnel: the timing policy and the
//! decisions of the retry loop. The caller runs the loop: it makes each
//! attempt, sleeps, watches for cancellation and reads the clock, and hands
//! each outcome back as an event. All times are in milliseconds.
use vstd::prelude::*;

verus! {

pub const LISTEN_RECONNECT_INITIAL_BACKOFF_MS: u64 = 50;
pub const LISTEN_RECONNECT_MAX_BACKOFF_MS: u64 = 500;
pub const LISTEN_RECONNECT_SAFETY_MARGIN_MS: u64 = 250;
pub const PORT_FORWARD_RECONNECT_ATTEMPT_TIMEOUT_MS: u64 = 2000;
pub const CONNECT_RECONNECT_TOTAL_TIMEOUT_MS: u64 = 10000;
pub const LISTEN_CLOSE_ACK_TIMEOUT_MS: u64 = 2000;
pub const PORT_FORWARD_OPEN_ACK_TIMEOUT_MS: u64 = 5000;
pub const PORT_FORWARD_TUNNEL_READY_TIMEOUT_MS: u64 = 5000;
pub const FORWARD_TASK_STOP_TIMEOUT_MS: u64 = 2000;
pub const UDP_CONNECTOR_IDLE_TIMEOUT_MS: u64 = 60000;
pub const UDP_CONNECTOR_IDLE_SWEEP_INTERVAL_MS: u64 = 5000;
pub const PORT_TUNNEL_HEARTBEAT_INTERVAL_MS: u64 = 10000;
pub const PORT_TUNNEL_HEARTBEAT_TIMEOUT_MS: u64 = 30000;

/// The heartbeat period of a port tunnel: the override a test environment
/// sets, else ten seconds.
pub fn port_tunnel_heartbeat_interval(override_ms: Option<u64>) -> (res: u64)
    ensures
        res == match override_ms {
            Some(ms) => ms,
            None => PORT_TUNNEL_HEARTBEAT_INTERVAL_MS,
        },
{
    match override_ms {
        Some(ms) => ms,
        None => PORT_TUNNEL_HEARTBEAT_INTERVAL_MS,
    }
}

/// How long a port tunnel may go without a heartbeat answer: the override a
/// test environment sets, else thirty seconds.
pub fn port_tunnel_heartbeat_timeout(override_ms: Option<u64>) -> (res: u64)
    ensures
        res == match override_ms {
            Some(ms) => ms,
            None => PORT_TUNNEL_HEARTBEAT_TIMEOUT_MS,
        },
{
    match override_ms {
        Some(ms) => ms,
        None => PORT_TUNNEL_HEARTBEAT_TIMEOUT_MS,
    }
}

/// Heartbeat timing of port tunnels.
#[derive(Debug, Clone, Copy, PartialEq, Eq, Structural)]
pub struct PortTunnelTimings {
    pub heartbeat_interval_ms: u64,
    pub heartbeat_timeout_ms: u64,
}

impl PortTunnelTimings {
    pub fn production() -> (res: Self)
        ensures
            res.heartbeat_interval_ms == 10000,
            res.heartbeat_timeout_ms == 30000,
    {
        PortTunnelTimings { heartbeat_interval_ms: 10000, heartbeat_timeout_ms: 30000 }
    }

    pub fn for_test() -> (res: Self)
        ensures
            res.heartbeat_interval_ms == 25,
            res.heartbeat_timeout_ms == 250,
    {
        PortTunnelTimings { heartbeat_interval_ms: 25, heartbeat_timeout_ms: 250 }
    }
}

/// The timings a running broker uses.
pub fn timings() -> (res: PortTunnelTimings)
    ensures
        res == (PortTunnelTimings { heartbeat_interval_ms: 10000, heartbeat_timeout_ms: 30000 }),
{
    PortTunnelTimings::production()
}

pub open spec fn spec_effective_resume_timeout(resume_timeout_ms: u64) -> u64 {
    if resume_timeout_ms <= LISTEN_RECONNECT_SAFETY_MARGIN_MS {
        resume_timeout_ms
    } else {
        (resume_timeout_ms - LISTEN_RECONNECT_SAFETY_MARGIN_MS) as u64
    }
}

/// The time a listen side has to resume its session: the daemon's resume
/// window less a safety margin, or the whole window when it is no longer
/// than the margin.
pub fn effective_resume_timeout(resume_timeout_ms: u64) -> (res: u64)
    ensures
        res == spec_effective_resume_timeout(resume_timeout_ms),
        res <= resume_timeout_ms,
{
    let adjusted = resume_timeout_ms.saturating_sub(LISTEN_RECONNECT_SAFETY_MARGIN_MS);
    if adjusted == 0 {
        resume_timeout_ms
    } else {
        adjusted
    }
}

/// How a forward retries reopening one of its tunnels.
#[derive(Debug, Clone, Copy, PartialEq, Eq, Structural)]
pub struct PortForwardReconnectPolicy {
    pub initial_backoff_ms: u64,
    pub max_backoff_ms: u64,
    pub attempt_timeout_ms: u64,
    pub total_timeout_ms: u64,
    pub max_attempts: Option<u32>,
}

impl PortForwardReconnectPolicy {
    /// The policy for resuming a listen session within `resume_timeout_ms`.
    pub fn listen(resume_timeout_ms: u64) -> (res: Self)
        ensures
            res == (PortForwardReconnectPolicy {
                initial_backoff_ms: LISTEN_RECONNECT_INITIAL_BACKOFF_MS,
                max_backoff_ms: LISTEN_RECONNECT_MAX_BACKOFF_MS,
                attempt_timeout_ms: PORT_FORWARD_RECONNECT_ATTEMPT_TIMEOUT_MS,
                total_timeout_ms: spec_effective_resume_timeout(resume_timeout_ms),
                max_attempts: None,
            }),
    {
        PortForwardReconnectPolicy {
            initial_backoff_ms: LISTEN_RECONNECT_INITIAL_BACKOFF_MS,
            max_backoff_ms: LISTEN_RECONNECT_MAX_BACKOFF_MS,
            attempt_timeout_ms: PORT_FORWARD_RECONNECT_ATTEMPT_TIMEOUT_MS,
            total_timeout_ms: effective_resume_timeout(resume_timeout_ms),
            max_attempts: None,
        }
    }

    /// The policy for reopening a connect-side tunnel.
    pub fn connect() -> (res: Self)
        ensures
            res == (PortForwardReconnectPolicy {
                initial_backoff_ms: LISTEN_RECONNECT_INITIAL_BACKOFF_MS,
                max_backoff_ms: LISTEN_RECONNECT_MAX_BACKOFF_MS,
                attempt_timeout_ms: PORT_FORWARD_RECONNECT_ATTEMPT_TIMEOUT_MS,
                total_timeout_ms: CONNECT_RECONNECT_TOTAL_TIMEOUT_MS,
                max_attempts: None,
            }),
    {
        PortForwardReconnectPolicy {
            initial_backoff_ms: LISTEN_RECONNECT_INITIAL_BACKOFF_MS,
            max_backoff_ms: LISTEN_RECONNECT_MAX_BACKOFF_MS,
            attempt_timeout_ms: PORT_FORWARD_RECONNECT_ATTEMPT_TIMEOUT_MS,
            total_timeout_ms: CONNECT_RECONNECT_TOTAL_TIMEOUT_MS,
            max_attempts: None,
        }
    }
}

/// What the loop learned since its last decision.
#[derive(Debug, Clone, Copy, PartialEq, Eq, Structural)]
pub enum ReconnectEvent {
    /// The loop starts.
    Started,
    /// The attempt opened the tunnel.
    AttemptSucceeded,
    /// The attempt lost its transport; it may be tried again.
    AttemptFailedRetryable,
    /// The attempt failed for good.
    AttemptFailedTerminal,
    /// The attempt ran out of its time.
    AttemptTimedOut,
    /// The backoff sleep ended.
    Slept,
    /// The forward was cancelled while an attempt or a sleep ran.
    Cancelled,
}

/// What the loop does next.
#[derive(Debug, Clone, Copy, PartialEq, Eq, Structural)]
pub enum ReconnectAction {
    /// Make an attempt, giving it at most this long.
    Attempt(u64),
    /// Sleep this long before the next attempt.
    Sleep(u64),
    /// Hand back the reopened tunnel.
    Reopened,
    /// Stop without a tunnel: the forward was cancelled.
    Cancelled,
    /// Fail with the attempt's own error.
    Failed,
    /// Fail: the policy's attempt count ran out.
    AttemptsExhausted,
    /// Fail: the policy's total time ran out.
    TimedOut,
}

pub open spec fn attempts_exhausted_text() -> Seq<char> {
    "port forward reconnect attempts exhausted"@
}

pub open spec fn reconnect_timed_out_text() -> Seq<char> {
    "port tunnel reconnect timed out"@
}

/// The error a failed loop reports, for the two failures of its own.
pub fn reconnect_error_message(action: ReconnectAction) -> (res: Option<String>)
    ensures
        match action {
            ReconnectAction::AttemptsExhausted => res matches Some(m) && m@ == attempts_exhausted_text(),
            ReconnectAction::TimedOut => res matches Some(m) && m@ == reconnect_timed_out_text(),
            _ => res is None,
        },
{
    match action {
        ReconnectAction::AttemptsExhausted => Some(String::from_str("port forward reconnect attempts exhausted")),
        ReconnectAction::TimedOut => Some(String::from_str("port tunnel reconnect timed out")),
        _ => None,
    }
}

pub open spec fn min_u64(a: u64, b: u64) -> u64 {
    if a <= b { a } else { b }
}

pub open spec fn remaining_ms(deadline_ms: u64, now_ms: u64) -> u64 {
    if now_ms >= deadline_ms { 0 } else { (deadline_ms - now_ms) as u64 }
}

/// Where a retry loop stands.
#[derive(Debug, Clone, Copy, PartialEq, Eq, Structural)]
pub struct ReconnectState {
    pub deadline_ms: u64,
    pub backoff_ms: u64,
    pub attempts: u32,
}

/// The decision at the top of the loop: stop when cancelled, out of
/// attempts or out of time, else make one more attempt bounded by the time
/// left.
pub open spec fn spec_loop_top(
    s: ReconnectState,
    p: PortForwardReconnectPolicy,
    cancelled: bool,
    now_ms: u64,
) -> (ReconnectState, ReconnectAction) {
    if cancelled {
        (s, ReconnectAction::Cancelled)
    } else if p.max_attempts matches Some(max) && s.attempts >= max {
        (s, ReconnectAction::AttemptsExhausted)
    } else if remaining_ms(s.deadline_ms, now_ms) == 0 {
        (s, ReconnectAction::TimedOut)
    } else {
        (
            ReconnectState { attempts: if s.attempts == u32::MAX { s.attempts } else { (s.attempts + 1) as u32 }, ..s },
            ReconnectAction::Attempt(min_u64(p.attempt_timeout_ms, remaining_ms(s.deadline_ms, now_ms))),
        )
    }
}

/// The loop's decision after `event` at time `now_ms`.
pub open spec fn spec_reconnect_step(
    s: ReconnectState,
    p: PortForwardReconnectPolicy,
    event: ReconnectEvent,
    cancelled: bool,
    now_ms: u64,
) -> (ReconnectState, ReconnectAction) {
    match event {
        ReconnectEvent::Started => spec_loop_top(s, p, cancelled, now_ms),
        ReconnectEvent::Cancelled => (s, ReconnectAction::Cancelled),
        ReconnectEvent::AttemptSucceeded => (s, ReconnectAction::Reopened),
        ReconnectEvent::AttemptFailedTerminal => (s, ReconnectAction::Failed),
        ReconnectEvent::AttemptFailedRetryable | ReconnectEvent::AttemptTimedOut => {
            let sleep = min_u64(s.backoff_ms, remaining_ms(s.deadline_ms, now_ms));
            if sleep == 0 {
                spec_loop_top(s, p, cancelled, now_ms)
            } else {
                (s, ReconnectAction::Sleep(sleep))
            }
        },
        ReconnectEvent::Slept => {
            let doubled = if s.backoff_ms > u64::MAX - s.backoff_ms { u64::MAX } else { (s.backoff_ms + s.backoff_ms) as u64 };
            spec_loop_top(ReconnectState { backoff_ms: min_u64(doubled, p.max_backoff_ms), ..s }, p, cancelled, now_ms)
        },
    }
}

impl ReconnectState {
    /// A loop starting at `now_ms`, with the whole of the policy's time ahead.
    pub fn start(policy: &PortForwardReconnectPolicy, now_ms: u64) -> (res: Self)
        ensures
            res.deadline_ms == (if now_ms + policy.total_timeout_ms > u64::MAX { u64::MAX as int } else { now_ms + policy.total_timeout_ms }),
            res.backoff_ms == policy.initial_backoff_ms,
            res.attempts == 0,
    {
        ReconnectState {
            deadline_ms: now_ms.saturating_add(policy.total_timeout_ms),
            backoff_ms: policy.initial_backoff_ms,
            attempts: 0,
        }
    }

    fn loop_top(&mut self, policy: &PortForwardReconnectPolicy, cancelled: bool, now_ms: u64) -> (res: ReconnectAction)
        ensures
            (*final(self), res) == spec_loop_top(*old(self), *policy, cancelled, now_ms),
    {
        if cancelled {
            return ReconnectAction::Cancelled;
        }
        if let Some(max) = policy.max_attempts {
            if self.attempts >= max {
                return ReconnectAction::AttemptsExhausted;
            }
        }
        let remaining = self.deadline_ms.saturating_sub(now_ms);
        if remaining == 0 {
            return ReconnectAction::TimedOut;
        }
        self.attempts = self.attempts.saturating_add(1);
        let timeout = if policy.attempt_timeout_ms <= remaining { policy.attempt_timeout_ms } else { remaining };
        ReconnectAction::Attempt(timeout)
    }

    /// Decides what the loop does after `event`; `cancelled` is whether the
    /// forward has been cancelled, `now_ms` the clock.
    pub fn step(
        &mut self,
        policy: &PortForwardReconnectPolicy,
        event: ReconnectEvent,
        cancelled: bool,
        now_ms: u64,
    ) -> (res: ReconnectAction)
        ensures
            (*final(self), res) == spec_reconnect_step(*old(self), *policy, event, cancelled, now_ms),
            final(self).deadline_ms == old(self).deadline_ms,
            res matches ReconnectAction::Attempt(t) ==> t <= policy.attempt_timeout_ms && now_ms + t <= final(self).deadline_ms,
            res matches ReconnectAction::Sleep(t) ==> t <= old(self).backoff_ms && now_ms + t <= final(self).deadline_ms,
            old(self).backoff_ms <= policy.max_backoff_ms ==> final(self).backoff_ms <= policy.max_backoff_ms,
            policy.max_attempts matches Some(max) ==> (old(self).attempts <= max ==> final(self).attempts <= max),
    {
        match event {
            ReconnectEvent::Started => self.loop_top(policy, cancelled, now_ms),
            ReconnectEvent::Cancelled => ReconnectAction::Cancelled,
            ReconnectEvent::AttemptSucceeded => ReconnectAction::Reopened,
            ReconnectEvent::AttemptFailedTerminal => ReconnectAction::Failed,
            ReconnectEvent::AttemptFailedRetryable | ReconnectEvent::AttemptTimedOut => {
                let remaining = self.deadline_ms.saturating_sub(now_ms);
                let sleep = if self.backoff_ms <= remaining { self.backoff_ms } else { remaining };
                if sleep == 0 {
                    self.loop_top(policy, cancelled, now_ms)
                } else {
                    ReconnectAction::Sleep(sleep)
                }
            },
            ReconnectEvent::Slept => {
                let doubled = self.backoff_ms.saturating_add(self.backoff_ms);
                self.backoff_ms = if doubled <= policy.max_backoff_ms { doubled } else { policy.max_backoff_ms };
                self.loop_top(policy, cancelled, now_ms)
            },
        }
    }
}

/// A retry loop never waits past its deadline: every attempt and every
/// sleep it asks for ends by the deadline, and backoff never grows beyond
/// the policy's maximum.
pub proof fn lemma_reconnect_respects_deadline(
    s: ReconnectState,
    p: PortForwardReconnectPolicy,
    event: ReconnectEvent,
    cancelled: bool,
    now_ms: u64,
)
    requires
        s.backoff_ms <= p.max_backoff_ms,
    ensures
        ({
            let (next, action) = spec_reconnect_step(s, p, event, cancelled, now_ms);
            &&& next.deadline_ms == s.deadline_ms
            &&& next.backoff_ms <= p.max_backoff_ms
            &&& action matches ReconnectAction::Attempt(t) ==> now_ms + t <= s.deadline_ms && t <= p.attempt_timeout_ms
            &&& action matches ReconnectAction::Sleep(t) ==> now_ms + t <= s.deadline_ms
        }),
{
}

/// Once the deadline has passed, the next decision after a failed attempt
/// or a sleep is to stop: the loop cannot go on past its total time.
pub proof fn lemma_reconnect_stops_after_deadline(
    s: ReconnectState,
    p: PortForwardReconnectPolicy,
    event: ReconnectEvent,
    cancelled: bool,
    now_ms: u64,
)
    requires
        now_ms >= s.deadline_ms,
        event != ReconnectEvent::AttemptSucceeded,
    ensures
        ({
            let (_, action) = spec_reconnect_step(s, p, event, cancelled, now_ms);
            !(action is Attempt) && !(action is Sleep)
        }),
{
}

} // verus!
