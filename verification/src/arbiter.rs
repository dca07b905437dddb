use vstd::prelude::*;
use std::collections::VecDeque;

verus! {

/// The answer to a caller that asks for the engine.
#[derive(Clone, Copy, Debug, PartialEq, Eq, Structural)]
pub enum Admission {
    /// The engine was free: the caller holds it under this ticket.
    Granted(u64),
    /// The engine is held: the caller waits in line under this ticket.
    Queued(u64),
    /// No ticket is left to give out.
    Exhausted,
}

/// The answer to a caller that gives the engine back.
#[derive(Clone, Copy, Debug, PartialEq, Eq, Structural)]
pub enum Handover {
    /// The engine went to the caller that waited longest, under this ticket.
    Passed(u64),
    /// Nobody waited: the engine is free.
    Idle,
    /// The ticket does not hold the engine: nothing changed.
    NotHolder,
}

/// Something that happens at the arbiter.
#[derive(Clone, Copy, Debug, PartialEq, Eq, Structural)]
pub enum ArbiterEvent {
    /// A caller asks for the engine.
    Request,
    /// The caller with this ticket gives the engine back.
    Release(u64),
    /// The caller with this ticket stops waiting in line.
    Withdraw(u64),
}

/// The arbiter as mathematics: who holds the engine, who waits in which
/// order, and how many tickets were given out.
pub struct ArbiterView {
    pub holder: Option<u64>,
    pub waiting: Seq<u64>,
    pub issued: u64,
}

impl ArbiterView {
    /// The states that an arbiter can be in: nobody waits for a free engine,
    /// the line is in order of arrival, and every ticket in use was given out.
    pub open spec fn wf(self) -> bool {
        &&& self.holder is None ==> self.waiting.len() == 0
        &&& forall|i: int, j: int| 0 <= i < j < self.waiting.len() ==> self.waiting[i] < self.waiting[j]
        &&& forall|i: int| 0 <= i < self.waiting.len() ==> self.waiting[i] < self.issued
        &&& self.holder matches Some(h) ==> h < self.issued && forall|i: int|
            0 <= i < self.waiting.len() ==> h < self.waiting[i]
    }

    /// An arbiter at rest whose next ticket is `first`.
    pub open spec fn starting_at(first: u64) -> ArbiterView {
        ArbiterView { holder: None, waiting: Seq::empty(), issued: first }
    }

    pub open spec fn initial() -> ArbiterView {
        ArbiterView::starting_at(0)
    }

    /// The invocations of the engine that are under way in this state.
    pub open spec fn invocations(self) -> int {
        if self.holder is Some {
            1
        } else {
            0
        }
    }

    /// The answer to the next request.
    pub open spec fn admission(self) -> Admission {
        if self.issued == u64::MAX {
            Admission::Exhausted
        } else if self.holder is None {
            Admission::Granted(self.issued)
        } else {
            Admission::Queued(self.issued)
        }
    }

    /// The state after the next request.
    pub open spec fn after_request(self) -> ArbiterView {
        match self.admission() {
            Admission::Exhausted => self,
            Admission::Granted(t) => ArbiterView { holder: Some(t), issued: (t + 1) as u64, ..self },
            Admission::Queued(t) => ArbiterView { waiting: self.waiting.push(t), issued: (t + 1) as u64, ..self },
        }
    }

    /// The answer to the release of `ticket`.
    pub open spec fn handover(self, ticket: u64) -> Handover {
        if self.holder != Some(ticket) {
            Handover::NotHolder
        } else if self.waiting.len() == 0 {
            Handover::Idle
        } else {
            Handover::Passed(self.waiting[0])
        }
    }

    /// The state after the release of `ticket`.
    pub open spec fn after_release(self, ticket: u64) -> ArbiterView {
        match self.handover(ticket) {
            Handover::NotHolder => self,
            Handover::Idle => ArbiterView { holder: None, ..self },
            Handover::Passed(next) => ArbiterView {
                holder: Some(next),
                waiting: self.waiting.subrange(1, self.waiting.len() as int),
                ..self
            },
        }
    }

    /// The state after the caller with `ticket` left the line.
    pub open spec fn after_withdraw(self, ticket: u64) -> ArbiterView {
        if self.waiting.contains(ticket) {
            ArbiterView { waiting: self.waiting.remove(self.waiting.index_of(ticket)), ..self }
        } else {
            self
        }
    }

    /// The state after one event.
    pub open spec fn step(self, event: ArbiterEvent) -> ArbiterView {
        match event {
            ArbiterEvent::Request => self.after_request(),
            ArbiterEvent::Release(t) => self.after_release(t),
            ArbiterEvent::Withdraw(t) => self.after_withdraw(t),
        }
    }

    /// How many invocations of the engine an event starts: one where it
    /// hands the engine to a caller.
    pub open spec fn starts(self, event: ArbiterEvent) -> int {
        match event {
            ArbiterEvent::Request => if self.admission() is Granted { 1 } else { 0 },
            ArbiterEvent::Release(t) => if self.handover(t) is Passed { 1 } else { 0 },
            ArbiterEvent::Withdraw(_) => 0,
        }
    }

    /// How many invocations of the engine an event ends: one where the
    /// holder gives the engine back.
    pub open spec fn ends(self, event: ArbiterEvent) -> int {
        match event {
            ArbiterEvent::Release(t) => if self.handover(t) is NotHolder { 0 } else { 1 },
            _ => 0,
        }
    }
}

/// The state that a run of events leads to from `start`.
pub open spec fn run(start: ArbiterView, events: Seq<ArbiterEvent>) -> ArbiterView
    decreases events.len(),
{
    if events.len() == 0 {
        start
    } else {
        run(start, events.drop_last()).step(events.last())
    }
}

/// The invocations of the engine that are under way after a run of events
/// from `start`, as one who counts them sees it: those under way at the
/// start, and those that were started since, less those that ended.
pub open spec fn active(start: ArbiterView, events: Seq<ArbiterEvent>) -> int
    decreases events.len(),
{
    if events.len() == 0 {
        start.invocations()
    } else {
        let before = run(start, events.drop_last());
        active(start, events.drop_last()) + before.starts(events.last()) - before.ends(events.last())
    }
}

/// Serializes the callers of the one engine: at most one holds it, the
/// others wait in the order in which they came.
///
/// An arbiter is made by `new` and changed by its methods only, each of which
/// keeps it well formed.
#[derive(Debug)]
pub struct Arbiter {
    holder: Option<u64>,
    waiting: VecDeque<u64>,
    issued: u64,
}

impl View for Arbiter {
    type V = ArbiterView;

    closed spec fn view(&self) -> ArbiterView {
        ArbiterView { holder: self.holder, waiting: self.waiting@, issued: self.issued }
    }
}

impl Arbiter {
    /// An arbiter whose engine is free and for which nobody waits.
    pub fn new() -> (arbiter: Arbiter)
        ensures
            arbiter@ == ArbiterView::initial(),
            arbiter@.wf(),
    {
        Arbiter::starting_at(0)
    }

    /// An arbiter at rest that gives out `first` as its first ticket.
    pub fn starting_at(first: u64) -> (arbiter: Arbiter)
        ensures
            arbiter@ == ArbiterView::starting_at(first),
            arbiter@.wf(),
    {
        Arbiter { holder: None, waiting: VecDeque::new(), issued: first }
    }

    /// The ticket that holds the engine, if any does.
    pub fn holder(&self) -> (holder: Option<u64>)
        ensures
            holder == self@.holder,
    {
        self.holder
    }

    /// How many callers wait in line.
    pub fn waiting(&self) -> (n: usize)
        ensures
            n == self@.waiting.len(),
    {
        self.waiting.len()
    }

    /// Asks for the engine on behalf of a new caller. The caller gets the
    /// next ticket, and with it the engine if it is free, else the last place
    /// in the line.
    pub fn request(&mut self) -> (admission: Admission)
        requires
            old(self)@.wf(),
        ensures
            admission == old(self)@.admission(),
            final(self)@ == old(self)@.after_request(),
            final(self)@.wf(),
    {
        if self.issued == u64::MAX {
            return Admission::Exhausted;
        }
        let ticket: u64 = self.issued;
        self.issued = ticket + 1;
        if self.holder.is_none() {
            self.holder = Some(ticket);
            Admission::Granted(ticket)
        } else {
            self.waiting.push_back(ticket);
            Admission::Queued(ticket)
        }
    }

    /// Gives the engine back on behalf of the caller with `ticket`. The
    /// engine goes to the head of the line; a ticket that does not hold the
    /// engine changes nothing.
    pub fn release(&mut self, ticket: u64) -> (handover: Handover)
        requires
            old(self)@.wf(),
        ensures
            handover == old(self)@.handover(ticket),
            final(self)@ == old(self)@.after_release(ticket),
            final(self)@.wf(),
    {
        if self.holder != Some(ticket) {
            return Handover::NotHolder;
        }
        match self.waiting.pop_front() {
            Some(next) => {
                self.holder = Some(next);
                Handover::Passed(next)
            },
            None => {
                self.holder = None;
                Handover::Idle
            },
        }
    }

    /// Takes the caller with `ticket` out of the line, as when its wait ran
    /// out. Says whether it was in the line. The holder cannot withdraw: the
    /// engine is given back only by `release`.
    pub fn withdraw(&mut self, ticket: u64) -> (left: bool)
        requires
            old(self)@.wf(),
        ensures
            left == old(self)@.waiting.contains(ticket),
            final(self)@ == old(self)@.after_withdraw(ticket),
            final(self)@.wf(),
    {
        let mut i: usize = 0;
        while i < self.waiting.len()
            invariant
                i <= self.waiting@.len(),
                *self == *old(self),
                self@.wf(),
                forall|j: int| 0 <= j < i ==> self.waiting@[j] != ticket,
            decreases self.waiting@.len() - i,
        {
            if self.waiting[i] == ticket {
                proof {
                    assert(self.waiting@.contains(ticket));
                    let k = self.waiting@.index_of(ticket);
                    assert(0 <= k < self.waiting@.len() && self.waiting@[k] == ticket);
                    assert(k == i) by {
                        if k < i {
                            assert(self.waiting@[k] < self.waiting@[i as int]);
                        } else if i < k {
                            assert(self.waiting@[i as int] < self.waiting@[k]);
                        }
                    }
                    lemma_step_keeps_wf(self@, ArbiterEvent::Withdraw(ticket));
                }
                self.waiting.remove(i);
                return true;
            }
            i += 1;
        }
        false
    }
}

/// Whatever happens at an arbiter, and in whatever order, it stays in one of
/// its states and never more than one invocation of the engine is under way:
/// one exactly while a caller holds the engine, none while it is free.
pub proof fn lemma_exclusive(start: ArbiterView, events: Seq<ArbiterEvent>)
    requires
        start.wf(),
    ensures
        run(start, events).wf(),
        0 <= active(start, events) <= 1,
        active(start, events) == run(start, events).invocations(),
    decreases events.len(),
{
    if events.len() > 0 {
        lemma_exclusive(start, events.drop_last());
        lemma_step_keeps_wf(run(start, events.drop_last()), events.last());
    }
}

/// No event leads out of the arbiter's states.
pub proof fn lemma_step_keeps_wf(state: ArbiterView, event: ArbiterEvent)
    requires
        state.wf(),
    ensures
        state.step(event).wf(),
{
    match event {
        ArbiterEvent::Withdraw(t) => {
            if state.waiting.contains(t) {
                let k = state.waiting.index_of(t);
                let after = state.waiting.remove(k);
                assert forall|i: int| 0 <= i < after.len() implies after[i] == state.waiting[if i < k { i } else { i + 1 }] by {}
            }
        },
        _ => {},
    }
}

/// The engine is handed on in the order of arrival: the caller that gets it
/// at a release holds the earliest ticket of all that waited, and those
/// behind it keep their order.
pub proof fn lemma_first_come_first_served(state: ArbiterView, ticket: u64)
    requires
        state.wf(),
        state.handover(ticket) is Passed,
    ensures
        state.handover(ticket) matches Handover::Passed(next) && forall|i: int|
            0 <= i < state.waiting.len() ==> next <= state.waiting[i],
        state.after_release(ticket).waiting == state.waiting.drop_first(),
{
}

/// No caller waits for ever behind later ones: a request never moves a
/// waiting caller, and each release by the holder moves every waiting caller
/// one place forward, the first of them into the engine. A caller at place
/// `k` of the line thus holds the engine after `k + 1` releases, whatever
/// the load.
pub proof fn lemma_line_advances(state: ArbiterView, k: int)
    requires
        state.wf(),
        0 <= k < state.waiting.len(),
    ensures
        state.after_request().waiting.len() > k,
        state.after_request().waiting[k] == state.waiting[k],
        state.holder matches Some(h) && (if k == 0 {
            state.after_release(h).holder == Some(state.waiting[0])
        } else {
            state.after_release(h).waiting[k - 1] == state.waiting[k]
        }),
{
}

} // verus!
