//! Fan-out of replies to the calls that wait for them.
//!
//! One reader owns the response stream and hands each reply to the dispatcher,
//! which routes it by correlation id to the call that waits for it, so that no
//! call consumes a reply meant for another.

use vstd::prelude::*;
use crate::call::{PendingCall, PollEvent, Reply, CallStep, step_spec};
use crate::status::RpcError;

verus! {

/// Whether no two calls of `calls` share a correlation id.
pub open spec fn ids_distinct(calls: Seq<PendingCall>) -> bool {
    forall|i: int, j: int|
        0 <= i < calls.len() && 0 <= j < calls.len() && i != j ==> calls[i].request_id@
            != calls[j].request_id@
}

/// Whether some call of `calls` waits for `id`.
pub open spec fn waits_for(calls: Seq<PendingCall>, id: Seq<char>) -> bool {
    exists|i: int| 0 <= i < calls.len() && #[trigger] calls[i].request_id@ == id
}

/// The calls that wait for a reply, each under its own correlation id.
#[derive(Debug)]
pub struct Dispatcher {
    waiting: Vec<PendingCall>,
}

impl View for Dispatcher {
    type V = Seq<PendingCall>;

    closed spec fn view(&self) -> Seq<PendingCall> {
        self.waiting@
    }
}

impl Dispatcher {
    /// The dispatcher's invariant: no two waiting calls share an id.
    pub open spec fn wf(&self) -> bool {
        ids_distinct(self@)
    }

    /// A dispatcher with no call waiting.
    pub fn new() -> (r: Dispatcher)
        ensures
            r.wf(),
            r@ == Seq::<PendingCall>::empty(),
    {
        Dispatcher { waiting: Vec::new() }
    }

    /// The number of waiting calls.
    pub fn len(&self) -> (r: usize)
        ensures
            r == self@.len(),
    {
        self.waiting.len()
    }

    fn find(&self, id: &String) -> (r: Option<usize>)
        ensures
            match r {
                Some(i) => i < self@.len() && self@[i as int].request_id@ == id@,
                None => !waits_for(self@, id@),
            },
    {
        let mut i: usize = 0;
        while i < self.waiting.len()
            invariant
                i <= self.waiting@.len(),
                forall|k: int| 0 <= k < i ==> self.waiting@[k].request_id@ != id@,
            decreases self.waiting@.len() - i,
        {
            if self.waiting[i].request_id == *id {
                return Some(i);
            }
            i = i + 1;
        }
        None
    }

    /// Adds a call to wait for. A call whose id is already waited for is
    /// handed back and nothing changes.
    pub fn register(&mut self, call: PendingCall) -> (r: Result<(), PendingCall>)
        requires
            old(self).wf(),
        ensures
            final(self).wf(),
            waits_for(old(self)@, call.request_id@) ==> r == Err::<(), PendingCall>(call)
                && final(self)@ == old(self)@,
            !waits_for(old(self)@, call.request_id@) ==> r is Ok && final(self)@ == old(self)@.push(
                call,
            ),
    {
        match self.find(&call.request_id) {
            Some(_) => Err(call),
            None => {
                self.waiting.push(call);
                proof {
                    let s = self.waiting@;
                    assert forall|i: int, j: int|
                        0 <= i < s.len() && 0 <= j < s.len() && i != j implies s[i].request_id@
                        != s[j].request_id@ by {
                        if i == s.len() - 1 {
                            assert(old(self)@[j].request_id@ == s[j].request_id@);
                        } else if j == s.len() - 1 {
                            assert(old(self)@[i].request_id@ == s[i].request_id@);
                        }
                    }
                }
                Ok(())
            },
        }
    }

    /// Routes a reply read at `now_ms` to the call that waits for its id.
    ///
    /// A reply that no call waits for is dropped and changes nothing. For the
    /// call that waits for it, the reply is a poll of that call: when it
    /// resolves the call, the call leaves and its id comes back with the
    /// outcome; a pending reply leaves everything as it was.
    pub fn dispatch(&mut self, now_ms: u64, reply: Reply) -> (r: Option<(String, Result<String, RpcError>)>)
        requires
            old(self).wf(),
        ensures
            final(self).wf(),
            !waits_for(old(self)@, reply.request_id@) ==> r is None && final(self)@ == old(self)@,
            forall|i: int|
                0 <= i < old(self)@.len() && #[trigger] old(self)@[i].request_id@
                    == reply.request_id@ ==> match step_spec(
                    old(self)@[i],
                    now_ms,
                    PollEvent::Message(reply),
                ) {
                    CallStep::Done(outcome) => r == Some((old(self)@[i].request_id, outcome))
                        && final(self)@ == old(self)@.remove(i),
                    _ => r is None && final(self)@ == old(self)@,
                },
    {
        match self.find(&reply.request_id) {
            None => None,
            Some(i) => {
                let event = PollEvent::Message(reply);
                let s = self.waiting[i].step(now_ms, &event);
                match s {
                    CallStep::Done(outcome) => {
                        let call = self.waiting.remove(i);
                        proof {
                            let o = old(self)@;
                            assert forall|a: int, b: int|
                                0 <= a < self.waiting@.len() && 0 <= b < self.waiting@.len() && a
                                    != b implies self.waiting@[a].request_id@
                                != self.waiting@[b].request_id@ by {
                                let a2 = if a < i { a } else { a + 1 };
                                let b2 = if b < i { b } else { b + 1 };
                                assert(self.waiting@[a] == o[a2]);
                                assert(self.waiting@[b] == o[b2]);
                            }
                        }
                        Some((call.request_id, outcome))
                    },
                    _ => None,
                }
            },
        }
    }

    /// Takes out one call whose deadline has come by `now_ms`, and gives its
    /// id with the `Timeout` it ends with; `None`, changing nothing, when no
    /// call has expired.
    pub fn expire_next(&mut self, now_ms: u64) -> (r: Option<(String, RpcError)>)
        requires
            old(self).wf(),
        ensures
            final(self).wf(),
            (forall|i: int| 0 <= i < old(self)@.len() ==> now_ms < #[trigger] old(self)@[i].deadline_ms)
                ==> r is None && final(self)@ == old(self)@,
            (exists|i: int| 0 <= i < old(self)@.len() && now_ms >= #[trigger] old(self)@[i].deadline_ms)
                ==> r is Some,
            r is Some ==> exists|i: int|
                0 <= i < old(self)@.len() && now_ms >= #[trigger] old(self)@[i].deadline_ms && r
                    == Some((old(self)@[i].request_id, RpcError::Timeout { timeout_ms: old(self)@[i].timeout_ms }))
                    && final(self)@ == old(self)@.remove(i),
    {
        let mut i: usize = 0;
        while i < self.waiting.len()
            invariant
                i <= self.waiting@.len(),
                self.waiting@ == old(self)@,
                ids_distinct(old(self)@),
                forall|k: int| 0 <= k < i ==> now_ms < #[trigger] self.waiting@[k].deadline_ms,
            decreases self.waiting@.len() - i,
        {
            if now_ms >= self.waiting[i].deadline_ms {
                let call = self.waiting.remove(i);
                proof {
                    let o = old(self)@;
                    assert forall|a: int, b: int|
                        0 <= a < self.waiting@.len() && 0 <= b < self.waiting@.len() && a != b implies self.waiting@[a].request_id@
                        != self.waiting@[b].request_id@ by {
                        let a2 = if a < i { a } else { a + 1 };
                        let b2 = if b < i { b } else { b + 1 };
                        assert(self.waiting@[a] == o[a2]);
                        assert(self.waiting@[b] == o[b2]);
                    }
                }
                return Some((call.request_id, RpcError::Timeout { timeout_ms: call.timeout_ms }));
            }
            i = i + 1;
        }
        None
    }

    /// Takes out every waiting call, in order, leaving none; for when the
    /// response stream itself fails and no call can be answered.
    pub fn drain(&mut self) -> (r: Vec<PendingCall>)
        requires
            old(self).wf(),
        ensures
            final(self).wf(),
            r@ == old(self)@,
            final(self)@ == Seq::<PendingCall>::empty(),
    {
        let mut taken: Vec<PendingCall> = Vec::new();
        std::mem::swap(&mut taken, &mut self.waiting);
        taken
    }
}

} // verus!
