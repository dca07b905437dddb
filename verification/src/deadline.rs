use vstd::prelude::*;
use crate::response::{fallback, rendered, resolved, Arrival, EngineReply};

verus! {

/// The wait allowed to one request, in time units from its acceptance.
pub const BUDGET: u64 = 300;

/// The instant at which a request accepted at `accepted_at` stops waiting:
/// `budget` units later, or the end of the clock where that is sooner.
pub open spec fn deadline_after(accepted_at: u64, budget: u64) -> u64 {
    if accepted_at + budget > u64::MAX {
        u64::MAX
    } else {
        (accepted_at + budget) as u64
    }
}

/// What reaches a caller that waits until `deadline` for an invocation that
/// ends at `finished_at`, if it ever ends: the reply where it came by the
/// deadline, the timer in every other case.
pub open spec fn raced(deadline: u64, completion: Option<(u64, EngineReply)>) -> Arrival {
    match completion {
        Some((finished_at, reply)) => if finished_at <= deadline {
            Arrival::Reply(reply)
        } else {
            Arrival::TimerFired
        },
        None => Arrival::TimerFired,
    }
}

/// One request as the dispatcher holds it: the audio and the instant at
/// which the caller stops waiting for an outcome.
#[derive(Clone, Debug, PartialEq, Eq)]
pub struct RequestContext {
    /// Encoded or raw audio; may be empty.
    pub payload: Vec<u8>,
    pub deadline: u64,
}

impl RequestContext {
    /// The context of a request accepted at `accepted_at`.
    pub fn accept(payload: Vec<u8>, accepted_at: u64, budget: u64) -> (context: RequestContext)
        ensures
            context.payload == payload,
            context.deadline == deadline_after(accepted_at, budget),
    {
        RequestContext { payload, deadline: accepted_at.saturating_add(budget) }
    }

    /// Whether the caller's wait is over at `now`.
    pub fn expired(&self, now: u64) -> (over: bool)
        ensures
            over == (now > self.deadline),
    {
        now > self.deadline
    }

    /// How long the caller still waits at `now`.
    pub fn remaining(&self, now: u64) -> (left: u64)
        ensures
            left == if now >= self.deadline { 0 } else { self.deadline - now },
    {
        if now >= self.deadline {
            0
        } else {
            self.deadline - now
        }
    }

    /// Decides the race between the invocation and the timer. The invocation
    /// is not stopped: a reply that comes after the deadline is dropped here.
    pub fn race(&self, completion: Option<(u64, EngineReply)>) -> (arrival: Arrival)
        ensures
            arrival == raced(self.deadline, completion),
    {
        match completion {
            Some((finished_at, reply)) => if finished_at <= self.deadline {
                Arrival::Reply(reply)
            } else {
                Arrival::TimerFired
            },
            None => Arrival::TimerFired,
        }
    }
}

/// A request whose invocation takes longer than the budget is answered with
/// the sentinel for a timeout, whatever the engine gives back in the end and
/// however much later, and also where it never gives anything back.
pub proof fn lemma_deadline_bound(accepted_at: u64, budget: u64, completion: Option<(u64, EngineReply)>)
    requires
        completion matches Some((finished_at, _)) ==> finished_at > accepted_at + budget,
    ensures
        raced(deadline_after(accepted_at, budget), completion) == Arrival::TimerFired,
        rendered(resolved(raced(deadline_after(accepted_at, budget), completion))) == fallback(
            "Transcription timed out"@,
        ),
{
}

/// A reply that comes within the budget is never lost to the timer.
pub proof fn lemma_reply_in_time(accepted_at: u64, budget: u64, finished_at: u64, reply: EngineReply)
    requires
        finished_at <= accepted_at + budget,
    ensures
        raced(deadline_after(accepted_at, budget), Some((finished_at, reply))) == Arrival::Reply(reply),
{
}

} // verus!
