use vstd::prelude::*;
use crate::response::{render, rendered, resolve, resolved, Arrival, Outcome, OutcomeView, Response, ResponseView};

verus! {

/// Where a request stands on its way to an answer.
#[derive(Clone, Copy, Debug, PartialEq, Eq, Structural)]
pub enum Phase {
    Received,
    Validated,
    Dispatched,
    Completed,
    TimedOut,
    EngineFailed,
    MalformedResult,
    Responded,
}

/// What happens to a request.
#[derive(Debug, PartialEq, Eq)]
pub enum Event {
    /// Its body was read as audio.
    Accept,
    /// It was handed on towards the engine, its timer running.
    Dispatch,
    /// The engine's reply or the timer reached it.
    Arrive(Arrival),
    /// Its answer was sent.
    Send,
}

/// What the dispatcher does next for a request.
#[derive(Clone, Debug, PartialEq, Eq)]
pub enum Action {
    /// Hand the request on towards the engine and start its timer.
    Dispatch,
    /// Wait for the reply or the timer.
    Wait,
    /// Send this body, as a success.
    Answer(Response),
    /// Drop what is left of the request.
    Close,
    /// Nothing: the event does not concern the request as it stands.
    Discard,
}

pub enum ActionView {
    Dispatch,
    Wait,
    Answer(ResponseView),
    Close,
    Discard,
}

impl View for Action {
    type V = ActionView;

    open spec fn view(&self) -> ActionView {
        match self {
            Action::Dispatch => ActionView::Dispatch,
            Action::Wait => ActionView::Wait,
            Action::Answer(r) => ActionView::Answer(r@),
            Action::Close => ActionView::Close,
            Action::Discard => ActionView::Discard,
        }
    }
}

impl Phase {
    /// The phase that records an outcome.
    pub open spec fn of(outcome: OutcomeView) -> Phase {
        match outcome {
            OutcomeView::Completed(_) => Phase::Completed,
            OutcomeView::EngineFailed => Phase::EngineFailed,
            OutcomeView::MalformedResult(_) => Phase::MalformedResult,
            OutcomeView::TimedOut => Phase::TimedOut,
        }
    }

    /// Whether the phase records an outcome that is not yet sent.
    pub open spec fn settled(self) -> bool {
        self is Completed || self is TimedOut || self is EngineFailed || self is MalformedResult
    }

    /// Whether `event` moves a request on from this phase.
    pub open spec fn takes(self, event: Event) -> bool {
        match event {
            Event::Accept => self is Received,
            Event::Dispatch => self is Validated,
            Event::Arrive(_) => self is Dispatched,
            Event::Send => self.settled(),
        }
    }

    /// The phase after `event`: the next one where the event moves the
    /// request on, the same one where it does not.
    pub open spec fn next(self, event: Event) -> Phase {
        if !self.takes(event) {
            self
        } else {
            match event {
                Event::Accept => Phase::Validated,
                Event::Dispatch => Phase::Dispatched,
                Event::Arrive(arrival) => Phase::of(resolved(arrival)),
                Event::Send => Phase::Responded,
            }
        }
    }

    /// What the dispatcher does on `event` in this phase.
    pub open spec fn reaction(self, event: Event) -> ActionView {
        if !self.takes(event) {
            ActionView::Discard
        } else {
            match event {
                Event::Accept => ActionView::Dispatch,
                Event::Dispatch => ActionView::Wait,
                Event::Arrive(arrival) => ActionView::Answer(rendered(resolved(arrival))),
                Event::Send => ActionView::Close,
            }
        }
    }

    pub fn is_settled(&self) -> (b: bool)
        ensures
            b == self.settled(),
    {
        match self {
            Phase::Completed | Phase::TimedOut | Phase::EngineFailed | Phase::MalformedResult => true,
            _ => false,
        }
    }

    /// Moves a request on by one event and says what to do for it.
    pub fn advance(self, event: &Event) -> (step: (Phase, Action))
        ensures
            step.0 == self.next(*event),
            step.1@ == self.reaction(*event),
    {
        match event {
            Event::Accept => match self {
                Phase::Received => (Phase::Validated, Action::Dispatch),
                _ => (self, Action::Discard),
            },
            Event::Dispatch => match self {
                Phase::Validated => (Phase::Dispatched, Action::Wait),
                _ => (self, Action::Discard),
            },
            Event::Arrive(arrival) => match self {
                Phase::Dispatched => {
                    let outcome = resolve(arrival);
                    let phase = Phase::recording(&outcome);
                    (phase, Action::Answer(render(outcome)))
                },
                _ => (self, Action::Discard),
            },
            Event::Send => if self.is_settled() {
                (Phase::Responded, Action::Close)
            } else {
                (self, Action::Discard)
            },
        }
    }

    /// The phase that records `outcome`.
    pub fn recording(outcome: &Outcome) -> (phase: Phase)
        ensures
            phase == Phase::of(outcome@),
    {
        match outcome {
            Outcome::Completed(_) => Phase::Completed,
            Outcome::EngineFailed => Phase::EngineFailed,
            Outcome::MalformedResult(_) => Phase::MalformedResult,
            Outcome::TimedOut => Phase::TimedOut,
        }
    }
}

/// No request is left without an answer: whatever reaches a dispatched
/// request first, it is answered with the body of that outcome, and sending
/// the body ends it.
pub proof fn lemma_always_answered(arrival: Arrival)
    ensures
        Phase::Received.next(Event::Accept) == Phase::Validated,
        Phase::Validated.next(Event::Dispatch) == Phase::Dispatched,
        Phase::Dispatched.next(Event::Arrive(arrival)).settled(),
        Phase::Dispatched.reaction(Event::Arrive(arrival)) == ActionView::Answer(rendered(resolved(arrival))),
        Phase::Dispatched.next(Event::Arrive(arrival)).next(Event::Send) == Phase::Responded,
{
}

/// A request is answered once: after its outcome is known, whatever else
/// arrives for it (the reply of an invocation that ran on past the timer)
/// is dropped and changes nothing.
pub proof fn lemma_late_arrival_dropped(phase: Phase, late: Arrival)
    requires
        phase.settled() || phase is Responded,
    ensures
        phase.next(Event::Arrive(late)) == phase,
        phase.reaction(Event::Arrive(late)) == ActionView::Discard,
{
}

/// Nothing moves a request once it is answered.
pub proof fn lemma_responded_is_terminal(event: Event)
    ensures
        Phase::Responded.next(event) == Phase::Responded,
        Phase::Responded.reaction(event) == ActionView::Discard,
{
}

} // verus!
