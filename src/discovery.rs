//! Waiting for the controller to subscribe to the request topic before the
//! first call, so that the transport does not drop that call's request.
//!
//! The caller polls the transport's count of matched subscriptions every
//! [`DISCOVERY_POLL_INTERVAL_MS`] and hands each count to [`DiscoveryGate::step`].

use vstd::prelude::*;
use crate::call::deadline_spec;
use crate::status::RpcError;

verus! {

/// How long the caller sleeps between two reads of the matched count.
pub const DISCOVERY_POLL_INTERVAL_MS: u64 = 20;

/// The message of the error given when nobody subscribed in time.
pub const NO_MATCH_MESSAGE: &'static str = "no matched subscriptions on the request topic";

/// A wait for discovery in progress.
#[derive(Debug, Clone, Copy, PartialEq, Eq)]
pub struct DiscoveryGate {
    /// The instant (milliseconds on the caller's monotonic clock) at which the wait gives up.
    pub deadline_ms: u64,
    /// The timeout that the deadline was computed from.
    pub timeout_ms: u64,
}

/// What the caller does after reading the matched count.
#[derive(Debug)]
pub enum GateStep {
    /// A subscriber is matched: calls may be issued.
    Ready,
    /// None yet: sleep the poll interval and read the count again.
    Wait,
    /// None appeared before the deadline.
    Failed(RpcError),
}

impl DiscoveryGate {
    /// Starts a wait of `timeout_ms` at `now_ms`.
    pub fn start(now_ms: u64, timeout_ms: u64) -> (r: DiscoveryGate)
        ensures
            r.timeout_ms == timeout_ms,
            r.deadline_ms == deadline_spec(now_ms, timeout_ms),
    {
        DiscoveryGate { deadline_ms: now_ms.saturating_add(timeout_ms), timeout_ms }
    }

    /// Moves the wait on after reading `matched` subscriptions at `now_ms`. A
    /// match is accepted even at the deadline; without one, the wait fails
    /// with `InitializationFailed` once the deadline has come.
    pub fn step(&self, now_ms: u64, matched: usize) -> (r: GateStep)
        ensures
            matched > 0 ==> r is Ready,
            matched == 0 && now_ms < self.deadline_ms ==> r is Wait,
            matched == 0 && now_ms >= self.deadline_ms ==> (match r {
                GateStep::Failed(RpcError::InitializationFailed(m)) => m@ == NO_MATCH_MESSAGE@,
                _ => false,
            }),
    {
        if matched > 0 {
            GateStep::Ready
        } else if now_ms < self.deadline_ms {
            GateStep::Wait
        } else {
            GateStep::Failed(RpcError::InitializationFailed(NO_MATCH_MESSAGE.to_owned()))
        }
    }
}

} // verus!
