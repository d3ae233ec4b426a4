//! When the broker resets its connection to a daemon after timeouts, and
//! which failed requests it retries.
use vstd::prelude::*;

use crate::text::{decimal, push_decimal};

verus! {

/// Timeouts in a row, on one connection, after which it is rebuilt.
pub const CONSECUTIVE_TIMEOUTS_BEFORE_RESET: u8 = 2;

/// Extra time an exec call gets beyond the yield time it asked for.
pub const EXEC_RPC_TIMEOUT_MARGIN_MS: u64 = 5000;

/// The daemon connection in use, its generation and its timeout streak.
pub struct DaemonConnectionState<C> {
    pub client: C,
    pub generation: u64,
    pub consecutive_timeouts: u8,
}

/// What to do about a timeout before any new client is built.
#[derive(Debug, Clone, Copy, PartialEq, Eq, Structural)]
pub enum RecoveryDecision {
    /// The timed-out request used an older connection: nothing to do.
    Superseded,
    /// The streak is too short to reset: keep the connection.
    Deferred { consecutive_timeouts: u8 },
    /// Build a new client and call `finish_reset` with this generation.
    ResetNeeded { generation: u64 },
}

/// How a timeout was handled.
#[derive(Debug, Clone, Copy, PartialEq, Eq, Structural)]
pub enum TimeoutRecoveryOutcome {
    Deferred { consecutive_timeouts: u8 },
    Superseded,
    Reset,
}

impl<C> DaemonConnectionState<C> {
    pub fn new(client: C) -> (res: Self)
        ensures
            res.client == client,
            res.generation == 0,
            res.consecutive_timeouts == 0,
    {
        DaemonConnectionState { client, generation: 0, consecutive_timeouts: 0 }
    }

    /// A response arrived on connection `generation`: the streak ends if
    /// that is still the current connection.
    pub fn record_success(&mut self, generation: u64)
        ensures
            final(self).client == old(self).client,
            final(self).generation == old(self).generation,
            final(self).consecutive_timeouts == if old(self).generation == generation { 0 } else { old(self).consecutive_timeouts },
    {
        if self.generation == generation {
            self.consecutive_timeouts = 0;
        }
    }

    /// A request on connection `expected_generation` (any, if `None`) timed out.
    pub fn begin_timeout_recovery(&mut self, expected_generation: Option<u64>) -> (res: RecoveryDecision)
        ensures
            final(self).client == old(self).client,
            final(self).generation == old(self).generation,
            ({
                let superseded = expected_generation matches Some(g) && g != old(self).generation;
                let streak = if old(self).consecutive_timeouts == u8::MAX { u8::MAX } else { (old(self).consecutive_timeouts + 1) as u8 };
                if superseded {
                    res == RecoveryDecision::Superseded && final(self).consecutive_timeouts == old(self).consecutive_timeouts
                } else if streak < CONSECUTIVE_TIMEOUTS_BEFORE_RESET {
                    res == (RecoveryDecision::Deferred { consecutive_timeouts: streak }) && final(self).consecutive_timeouts == streak
                } else {
                    res == (RecoveryDecision::ResetNeeded { generation: old(self).generation }) && final(self).consecutive_timeouts == streak
                }
            }),
    {
        if let Some(expected) = expected_generation {
            if self.generation != expected {
                return RecoveryDecision::Superseded;
            }
        }
        self.consecutive_timeouts = self.consecutive_timeouts.saturating_add(1);
        if self.consecutive_timeouts < CONSECUTIVE_TIMEOUTS_BEFORE_RESET {
            return RecoveryDecision::Deferred { consecutive_timeouts: self.consecutive_timeouts };
        }
        RecoveryDecision::ResetNeeded { generation: self.generation }
    }

    /// Installs the freshly built `client`, unless the connection moved on
    /// while it was being built.
    pub fn finish_reset(&mut self, recovery_generation: u64, client: C) -> (res: TimeoutRecoveryOutcome)
        ensures
            if old(self).generation != recovery_generation || old(self).consecutive_timeouts < CONSECUTIVE_TIMEOUTS_BEFORE_RESET {
                res == TimeoutRecoveryOutcome::Superseded
                    && final(self).client == old(self).client
                    && final(self).generation == old(self).generation
                    && final(self).consecutive_timeouts == old(self).consecutive_timeouts
            } else {
                res == TimeoutRecoveryOutcome::Reset
                    && final(self).client == client
                    && final(self).generation == (if old(self).generation == u64::MAX { 0 } else { (old(self).generation + 1) as u64 })
                    && final(self).consecutive_timeouts == 0
            },
    {
        if self.generation != recovery_generation || self.consecutive_timeouts < CONSECUTIVE_TIMEOUTS_BEFORE_RESET {
            return TimeoutRecoveryOutcome::Superseded;
        }
        self.client = client;
        self.generation = self.generation.wrapping_add(1);
        self.consecutive_timeouts = 0;
        TimeoutRecoveryOutcome::Reset
    }
}

/// Two timeouts in a row on the current connection, with no response in
/// between, ask for a reset; a single one does not.
pub proof fn lemma_second_consecutive_timeout_resets(streak_before: u8)
    requires
        streak_before == 0,
    ensures
        ({
            let first = (streak_before + 1) as u8;
            let second = (first + 1) as u8;
            &&& first < CONSECUTIVE_TIMEOUTS_BEFORE_RESET
            &&& second >= CONSECUTIVE_TIMEOUTS_BEFORE_RESET
        }),
{
}

pub open spec fn recovery_text(outcome: Result<TimeoutRecoveryOutcome, String>) -> Seq<char> {
    match outcome {
        Ok(TimeoutRecoveryOutcome::Deferred { consecutive_timeouts }) =>
            "connection was retained after "@ + decimal(consecutive_timeouts as nat) + " consecutive timeout; request was not replayed"@,
        Ok(TimeoutRecoveryOutcome::Superseded) =>
            "connection recovery was already completed or no longer needed; request was not replayed"@,
        Ok(TimeoutRecoveryOutcome::Reset) => "connection was reset; request was not replayed"@,
        Err(e) => "connection reset failed: "@ + e@ + "; request was not replayed"@,
    }
}

/// What the broker says about a timed-out request after recovery.
pub fn recovery_message(outcome: Result<TimeoutRecoveryOutcome, String>) -> (res: String)
    ensures
        res@ == recovery_text(outcome),
{
    match outcome {
        Ok(TimeoutRecoveryOutcome::Deferred { consecutive_timeouts }) => {
            let mut out = String::from_str("connection was retained after ");
            push_decimal(&mut out, consecutive_timeouts as u64);
            out.append(" consecutive timeout; request was not replayed");
            out
        },
        Ok(TimeoutRecoveryOutcome::Superseded) => String::from_str(
            "connection recovery was already completed or no longer needed; request was not replayed",
        ),
        Ok(TimeoutRecoveryOutcome::Reset) => String::from_str("connection was reset; request was not replayed"),
        Err(e) => {
            let mut out = String::from_str("connection reset failed: ");
            out.append(e.as_str());
            out.append("; request was not replayed");
            out
        },
    }
}

/// The transport error text of a request that timed out, with or without
/// a response head.
pub fn timeout_error_text(operation: &str, while_reading_body: bool, recovery: &str) -> (res: String)
    ensures
        res@ == operation@ + (if while_reading_body { " timed out while reading the response body; "@ } else { " timed out; "@ }) + recovery@,
{
    let mut out = operation.to_owned();
    if while_reading_body {
        out.append(" timed out while reading the response body; ");
    } else {
        out.append(" timed out; ");
    }
    out.append(recovery);
    out
}

/// The transport error text of a request that ran past its whole deadline.
pub fn rpc_deadline_error_text(path: &str, timeout_ms: u64, recovery: &str) -> (res: String)
    ensures
        res@ == "daemon rpc `"@ + path@ + "` timed out after "@ + decimal(timeout_ms as nat) + " ms; "@ + recovery@,
{
    let mut out = String::from_str("daemon rpc `");
    out.append(path);
    out.append("` timed out after ");
    push_decimal(&mut out, timeout_ms);
    out.append(" ms; ");
    out.append(recovery);
    out
}

/// Timeout of an exec call in milliseconds: the request timeout, or the
/// yield time asked for plus a margin when that is longer.
pub fn exec_rpc_timeout_ms(request_timeout_ms: u128, yield_time_ms: Option<u64>) -> (res: u128)
    ensures
        res == match yield_time_ms {
            None => request_timeout_ms as int,
            Some(y) => if request_timeout_ms >= y + EXEC_RPC_TIMEOUT_MARGIN_MS { request_timeout_ms as int } else { y + EXEC_RPC_TIMEOUT_MARGIN_MS },
        },
{
    match yield_time_ms {
        None => request_timeout_ms,
        Some(y) => {
            let requested = y as u128 + EXEC_RPC_TIMEOUT_MARGIN_MS as u128;
            if request_timeout_ms >= requested { request_timeout_ms } else { requested }
        },
    }
}

/// Which requests may be sent again after a transport error.
#[derive(Debug, Clone, Copy, PartialEq, Eq, Structural)]
pub enum RpcRetryPolicy {
    NoRetry,
    IdempotentMetadata,
}

/// What kind of transport error a request ended with.
#[derive(Debug, Clone, Copy, PartialEq, Eq, Structural)]
pub struct TransportErrorKind {
    pub is_request: bool,
    pub is_connect: bool,
    pub is_timeout: bool,
    pub is_builder: bool,
}

pub open spec fn spec_is_retryable_idempotent(err: TransportErrorKind) -> bool {
    err.is_request && !err.is_connect && !err.is_timeout && !err.is_builder
}

impl RpcRetryPolicy {
    /// An idempotent metadata request is retried once after a request error
    /// that is neither a connect failure, a timeout nor a builder error.
    pub fn should_retry(self, err: TransportErrorKind, retried: bool) -> (res: bool)
        ensures
            res == (self == RpcRetryPolicy::IdempotentMetadata && !retried && spec_is_retryable_idempotent(err)),
    {
        self == RpcRetryPolicy::IdempotentMetadata && !retried && err.is_request && !err.is_connect && !err.is_timeout
            && !err.is_builder
    }
}

/// How one send of a daemon request ended.
#[derive(Debug, Clone, Copy, PartialEq, Eq, Structural)]
pub enum RpcSendOutcome {
    /// A response arrived; `success` is whether its status is a success.
    Response { success: bool },
    /// No response: the transport failed this way.
    TransportError(TransportErrorKind),
}

/// What the request loop does next.
#[derive(Debug, Clone, Copy, PartialEq, Eq, Structural)]
pub enum RpcAttemptAction {
    /// Check and decode the response; first clear the timeout streak when
    /// its status is an error (the daemon answered, so the connection lives).
    HandleResponse { record_success: bool },
    /// Send the request once more.
    Retry,
    /// Fail after running timeout recovery on this connection.
    FailAfterTimeout,
    /// Fail with the transport error.
    FailTransport,
}

/// The step after one send of a request under `policy`; `retried` is
/// whether it was already sent again once.
pub open spec fn spec_rpc_attempt_step(policy: RpcRetryPolicy, retried: bool, outcome: RpcSendOutcome) -> RpcAttemptAction {
    match outcome {
        RpcSendOutcome::Response { success } => RpcAttemptAction::HandleResponse { record_success: !success },
        RpcSendOutcome::TransportError(kind) => if policy == RpcRetryPolicy::IdempotentMetadata && !retried
            && spec_is_retryable_idempotent(kind) {
            RpcAttemptAction::Retry
        } else if kind.is_timeout {
            RpcAttemptAction::FailAfterTimeout
        } else {
            RpcAttemptAction::FailTransport
        },
    }
}

/// Decides after one send of a request under `policy`; `retried` is
/// whether it was already sent again once.
pub fn rpc_attempt_step(policy: RpcRetryPolicy, retried: bool, outcome: RpcSendOutcome) -> (res: RpcAttemptAction)
    ensures
        res == spec_rpc_attempt_step(policy, retried, outcome),
        retried ==> res != RpcAttemptAction::Retry,
        policy == RpcRetryPolicy::NoRetry ==> res != RpcAttemptAction::Retry,
{
    match outcome {
        RpcSendOutcome::Response { success } => RpcAttemptAction::HandleResponse { record_success: !success },
        RpcSendOutcome::TransportError(kind) => {
            if policy.should_retry(kind, retried) {
                RpcAttemptAction::Retry
            } else if kind.is_timeout {
                RpcAttemptAction::FailAfterTimeout
            } else {
                RpcAttemptAction::FailTransport
            }
        },
    }
}

/// How many times a request is sent when the sends end as `outcomes` say,
/// the loop starting with `retried`.
pub open spec fn sends_made(policy: RpcRetryPolicy, retried: bool, outcomes: Seq<RpcSendOutcome>) -> nat
    decreases outcomes.len(),
{
    if outcomes.len() == 0 {
        0
    } else if spec_rpc_attempt_step(policy, retried, outcomes[0]) == RpcAttemptAction::Retry {
        1 + sends_made(policy, true, outcomes.drop_first())
    } else {
        1
    }
}

/// A daemon request is sent at most twice, and a request without a retry
/// policy exactly once, whatever its sends end with.
pub proof fn lemma_request_sent_at_most_twice(policy: RpcRetryPolicy, outcomes: Seq<RpcSendOutcome>)
    ensures
        sends_made(policy, false, outcomes) <= 2,
        policy == RpcRetryPolicy::NoRetry ==> sends_made(policy, false, outcomes) <= 1,
{
    if outcomes.len() > 0 {
        let rest = outcomes.drop_first();
        if rest.len() > 0 {
            assert(spec_rpc_attempt_step(policy, true, rest[0]) != RpcAttemptAction::Retry);
        }
        assert(sends_made(policy, true, rest) <= 1);
    }
}

} // verus!
