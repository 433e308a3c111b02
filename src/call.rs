//! One outstanding call: its deadline, and how each poll of the shared
//! response stream moves it on.
//!
//! The transport loop belongs to the caller: it reads the clock, polls the
//! response reader without blocking, hands what it saw to [`PendingCall::step`],
//! and sleeps, polls again, or returns, as the step says.

use vstd::prelude::*;
use crate::status::{RpcError, SUCCESS, INVALID};
use crate::text::{trim, trimmed};

verus! {

/// How long the loop sleeps after a poll that found nothing.
pub const REPLY_POLL_INTERVAL_MS: u64 = 5;

/// How long a caller waits by default for the final reply to a call.
pub const DEFAULT_TIMEOUT_MS: u64 = 5000;

/// A reply taken from the response stream, its status already read.
#[derive(Debug)]
pub struct Reply {
    /// The correlation id that the reply echoes.
    pub request_id: String,
    /// Its status: `0` success, `-1` pending, anything else a failure.
    pub status: i32,
    /// Its serialized result, or the failure text.
    pub body: String,
    /// The reply's header text, used as the message when the body is blank.
    pub context: String,
}

/// What one non-blocking poll of the response stream gave.
#[derive(Debug)]
pub enum PollEvent {
    /// Nothing was available.
    Empty,
    /// A reply, for this call or for another one.
    Message(Reply),
    /// The reader itself failed.
    ReadFailed(String),
}

/// What the loop does after a poll.
#[derive(Debug)]
pub enum CallStep {
    /// Nothing arrived: sleep the poll interval, then poll again.
    Sleep,
    /// A reply was dropped (another call's, or pending): poll again at once.
    Retry,
    /// The call is resolved: the body of the success reply, or the error.
    Done(Result<String, RpcError>),
}

/// The context of one outstanding call.
#[derive(Debug)]
pub struct PendingCall {
    /// The correlation id sent with the request.
    pub request_id: String,
    /// The instant (milliseconds on the caller's monotonic clock) at which the call gives up.
    pub deadline_ms: u64,
    /// The timeout that the deadline was computed from.
    pub timeout_ms: u64,
}

/// The message of a failure reply: its body, or its header when the body is blank.
pub open spec fn failure_message(reply: Reply) -> String {
    if trimmed(reply.body@).len() == 0 {
        reply.context
    } else {
        reply.body
    }
}

/// Whether a reply would end the call: it echoes the call's id and its status is final.
pub open spec fn resolves(call: PendingCall, event: PollEvent) -> bool {
    match event {
        PollEvent::Empty => false,
        PollEvent::Message(reply) => reply.request_id@ == call.request_id@ && reply.status != INVALID,
        PollEvent::ReadFailed(_) => true,
    }
}

/// The step that a poll at `now_ms` which gave `event` leads to.
pub open spec fn step_spec(call: PendingCall, now_ms: u64, event: PollEvent) -> CallStep {
    if now_ms >= call.deadline_ms {
        CallStep::Done(Err(RpcError::Timeout { timeout_ms: call.timeout_ms }))
    } else {
        match event {
            PollEvent::Empty => CallStep::Sleep,
            PollEvent::ReadFailed(m) => CallStep::Done(Err(RpcError::ReceiveFailed(m))),
            PollEvent::Message(reply) => {
                if reply.request_id@ != call.request_id@ || reply.status == INVALID {
                    CallStep::Retry
                } else if reply.status == SUCCESS {
                    CallStep::Done(Ok(reply.body))
                } else {
                    CallStep::Done(
                        Err(RpcError::from_status_spec(reply.status, failure_message(reply))),
                    )
                }
            },
        }
    }
}

/// How a call ends on a sequence of polls, each with the time it was made at;
/// `None` while no poll has resolved it.
pub open spec fn run(call: PendingCall, trace: Seq<(u64, PollEvent)>) -> Option<
    Result<String, RpcError>,
>
    decreases trace.len(),
{
    if trace.len() == 0 {
        None
    } else {
        match step_spec(call, trace[0].0, trace[0].1) {
            CallStep::Done(outcome) => Some(outcome),
            _ => run(call, trace.drop_first()),
        }
    }
}

/// The deadline of a call started at `now_ms` with `timeout_ms`, held at the
/// end of the clock where the sum would pass it.
pub open spec fn deadline_spec(now_ms: u64, timeout_ms: u64) -> u64 {
    if now_ms + timeout_ms <= u64::MAX {
        (now_ms + timeout_ms) as u64
    } else {
        u64::MAX
    }
}

impl PendingCall {
    /// Starts the wait for the reply to `request_id`, sent at `now_ms`, with the
    /// call's own timeout or else the client's default one.
    pub fn start(request_id: String, now_ms: u64, timeout_ms: Option<u64>, default_timeout_ms: u64) -> (r: PendingCall)
        ensures
            r.request_id == request_id,
            r.timeout_ms == (match timeout_ms {
                Some(t) => t,
                None => default_timeout_ms,
            }),
            r.deadline_ms == deadline_spec(now_ms, r.timeout_ms),
    {
        let timeout = match timeout_ms {
            Some(t) => t,
            None => default_timeout_ms,
        };
        let deadline = now_ms.saturating_add(timeout);
        PendingCall { request_id, deadline_ms: deadline, timeout_ms: timeout }
    }

    /// Moves the call on after a poll made at `now_ms` that gave `event`.
    ///
    /// Past the deadline the call times out, whatever the poll gave. Otherwise
    /// a reply for another id, or a pending one, is dropped; a success reply
    /// resolves the call with its body; any other status resolves it with the
    /// mapped error; a read failure ends it at once.
    pub fn step(&self, now_ms: u64, event: &PollEvent) -> (r: CallStep)
        ensures
            r == step_spec(*self, now_ms, *event),
    {
        if now_ms >= self.deadline_ms {
            return CallStep::Done(Err(RpcError::Timeout { timeout_ms: self.timeout_ms }));
        }
        match event {
            PollEvent::Empty => CallStep::Sleep,
            PollEvent::ReadFailed(m) => CallStep::Done(Err(RpcError::ReceiveFailed(m.clone()))),
            PollEvent::Message(reply) => {
                if reply.request_id != self.request_id || reply.status == INVALID {
                    CallStep::Retry
                } else if reply.status == SUCCESS {
                    CallStep::Done(Ok(reply.body.clone()))
                } else {
                    let message = if trim(reply.body.as_str()).is_empty() {
                        reply.context.clone()
                    } else {
                        reply.body.clone()
                    };
                    CallStep::Done(Err(RpcError::from_status_code(reply.status, message)))
                }
            },
        }
    }

    /// Plays a sequence of polls against the call and returns how it ended,
    /// or `None` if no poll resolved it.
    pub fn run_trace(&self, trace: &Vec<(u64, PollEvent)>) -> (r: Option<Result<String, RpcError>>)
        ensures
            r == run(*self, trace@),
    {
        let mut i: usize = 0;
        proof {
            assert(trace@.subrange(0, trace@.len() as int) =~= trace@);
        }
        while i < trace.len()
            invariant
                i <= trace@.len(),
                run(*self, trace@) == run(*self, trace@.subrange(i as int, trace@.len() as int)),
            decreases trace@.len() - i,
        {
            let s = self.step(trace[i].0, &trace[i].1);
            proof {
                let rest = trace@.subrange(i as int, trace@.len() as int);
                assert(rest[0] == trace@[i as int]);
                assert(rest.drop_first() =~= trace@.subrange(i + 1, trace@.len() as int));
            }
            match s {
                CallStep::Done(outcome) => {
                    return Some(outcome);
                },
                _ => {},
            }
            i = i + 1;
        }
        proof {
            assert(trace@.subrange(i as int, trace@.len() as int).len() == 0);
        }
        None
    }
}

/// A reply that bears another call's id never affects this call: on its own
/// it resolves the call exactly when a poll that found nothing would, and
/// before the deadline it can be dropped from the polls without changing how
/// the call ends.
pub proof fn lemma_foreign_reply_is_noop(
    call: PendingCall,
    t: u64,
    reply: Reply,
    rest: Seq<(u64, PollEvent)>,
)
    requires
        reply.request_id@ != call.request_id@,
    ensures
        (step_spec(call, t, PollEvent::Message(reply)) is Done) == (step_spec(
            call,
            t,
            PollEvent::Empty,
        ) is Done),
        step_spec(call, t, PollEvent::Message(reply)) is Done ==> step_spec(
            call,
            t,
            PollEvent::Message(reply),
        ) == step_spec(call, t, PollEvent::Empty),
        t < call.deadline_ms ==> run(call, seq![(t, PollEvent::Message(reply))] + rest) == run(
            call,
            rest,
        ),
{
    let trace = seq![(t, PollEvent::Message(reply))] + rest;
    assert(trace[0] == (t, PollEvent::Message(reply)));
    assert(trace.drop_first() =~= rest);
}

/// A pending reply (status `-1`) for the call never resolves it: before the
/// deadline it can be dropped from the polls without changing how the call
/// ends, so pending replies ahead of the final one change only the time taken.
pub proof fn lemma_pending_reply_is_absorbed(
    call: PendingCall,
    t: u64,
    reply: Reply,
    rest: Seq<(u64, PollEvent)>,
)
    requires
        reply.request_id@ == call.request_id@,
        reply.status == INVALID,
        t < call.deadline_ms,
    ensures
        step_spec(call, t, PollEvent::Message(reply)) is Retry,
        run(call, seq![(t, PollEvent::Message(reply))] + rest) == run(call, rest),
{
    let trace = seq![(t, PollEvent::Message(reply))] + rest;
    assert(trace[0] == (t, PollEvent::Message(reply)));
    assert(trace.drop_first() =~= rest);
}

/// Polls made before the deadline that bring nothing final for the call
/// (nothing at all, replies for other calls, pending replies for this one)
/// never change how it ends: dropping any run of them from the front of the
/// polls leaves the outcome as it was.
pub proof fn lemma_unresolving_prefix(
    call: PendingCall,
    prefix: Seq<(u64, PollEvent)>,
    rest: Seq<(u64, PollEvent)>,
)
    requires
        forall|i: int|
            0 <= i < prefix.len() ==> #[trigger] prefix[i].0 < call.deadline_ms && !resolves(
                call,
                prefix[i].1,
            ),
    ensures
        run(call, prefix + rest) == run(call, rest),
    decreases prefix.len(),
{
    if prefix.len() > 0 {
        let whole = prefix + rest;
        assert(whole[0] == prefix[0]);
        assert(prefix[0].0 < call.deadline_ms && !resolves(call, prefix[0].1));
        let tail = prefix.drop_first();
        assert(whole.drop_first() =~= tail + rest);
        assert forall|i: int| 0 <= i < tail.len() implies #[trigger] tail[i].0 < call.deadline_ms
            && !resolves(call, tail[i].1) by {
            assert(tail[i] == prefix[i + 1]);
        }
        lemma_unresolving_prefix(call, tail, rest);
    } else {
        assert(prefix + rest =~= rest);
    }
}

/// The deadline is enforced: when no poll before the deadline brings a final
/// reply for the call, whatever else arrives, and some poll is made at or
/// after it, the call ends as `Timeout` with the timeout that was used.
pub proof fn lemma_timeout_enforced(call: PendingCall, trace: Seq<(u64, PollEvent)>)
    requires
        forall|i: int|
            0 <= i < trace.len() && trace[i].0 < call.deadline_ms ==> !resolves(
                call,
                #[trigger] trace[i].1,
            ),
        exists|i: int| 0 <= i < trace.len() && #[trigger] trace[i].0 >= call.deadline_ms,
    ensures
        run(call, trace) == Some(Err::<String, RpcError>(RpcError::Timeout { timeout_ms: call.timeout_ms })),
    decreases trace.len(),
{
    let k = choose|i: int| 0 <= i < trace.len() && #[trigger] trace[i].0 >= call.deadline_ms;
    if trace[0].0 < call.deadline_ms {
        assert(!resolves(call, trace[0].1));
        let rest = trace.drop_first();
        assert(k > 0);
        assert(rest[k - 1] == trace[k]);
        assert forall|i: int|
            0 <= i < rest.len() && rest[i].0 < call.deadline_ms implies !resolves(
                call,
                #[trigger] rest[i].1,
            ) by {
            assert(rest[i] == trace[i + 1]);
        }
        lemma_timeout_enforced(call, rest);
    }
}

} // verus!
