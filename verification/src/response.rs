use vstd::prelude::*;
use crate::normalize::{engine_segments, normalize, normalized, slots, violation, Malformed, ARITY};
use crate::raw::RawValue;
use crate::single::Single;
use crate::transcript::{ordered, segment_views, Segment, SegmentView, TranscriptionResult, TranscriptionView};

verus! {

/// How one invocation of the engine ended.
#[derive(Debug, PartialEq, Eq)]
pub enum EngineReply {
    /// The engine returned this raw result.
    Returned(RawValue),
    /// The engine raised, or was left in a state that cannot be used.
    Raised,
}

/// What reaches a waiting caller first: the engine's reply or its own timer.
#[derive(Debug, PartialEq, Eq)]
pub enum Arrival {
    Reply(EngineReply),
    TimerFired,
}

/// How a request ended.
#[derive(Clone, Debug, PartialEq, Eq)]
pub enum Outcome {
    Completed(TranscriptionResult),
    EngineFailed,
    MalformedResult(Malformed),
    TimedOut,
}

pub enum OutcomeView {
    Completed(TranscriptionView),
    EngineFailed,
    MalformedResult(Malformed),
    TimedOut,
}

impl View for Outcome {
    type V = OutcomeView;

    open spec fn view(&self) -> OutcomeView {
        match self {
            Outcome::Completed(t) => OutcomeView::Completed(t@),
            Outcome::EngineFailed => OutcomeView::EngineFailed,
            Outcome::MalformedResult(e) => OutcomeView::MalformedResult(*e),
            Outcome::TimedOut => OutcomeView::TimedOut,
        }
    }
}

/// The body of the answer to a request. Every request is answered with one,
/// whether it was served or not.
#[derive(Clone, Debug, PartialEq, Eq)]
pub struct Response {
    pub transcription: String,
    pub language: String,
    pub confidence: Single,
    pub segments: Vec<Segment>,
}

pub struct ResponseView {
    pub transcription: Seq<char>,
    pub language: Seq<char>,
    pub confidence: Single,
    pub segments: Seq<SegmentView>,
}

impl View for Response {
    type V = ResponseView;

    open spec fn view(&self) -> ResponseView {
        ResponseView {
            transcription: self.transcription@,
            language: self.language@,
            confidence: self.confidence,
            segments: segment_views(self.segments@),
        }
    }
}

/// The sentinel body that stands for a request that was not served.
pub open spec fn fallback(transcription: Seq<char>) -> ResponseView {
    ResponseView {
        transcription,
        language: "unknown"@,
        confidence: Single::zero_spec(),
        segments: Seq::empty(),
    }
}

/// Whether a body is one of the two sentinels.
pub open spec fn is_fallback(response: ResponseView) -> bool {
    response == fallback("Transcription failed"@) || response == fallback("Transcription timed out"@)
}

/// The body that answers a request with the given outcome.
pub open spec fn rendered(outcome: OutcomeView) -> ResponseView {
    match outcome {
        OutcomeView::Completed(t) => ResponseView {
            transcription: t.text,
            language: t.language,
            confidence: t.confidence,
            segments: t.segments,
        },
        OutcomeView::TimedOut => fallback("Transcription timed out"@),
        _ => fallback("Transcription failed"@),
    }
}

/// The outcome that the engine's reply decides.
pub open spec fn settled(reply: EngineReply) -> OutcomeView {
    match reply {
        EngineReply::Raised => OutcomeView::EngineFailed,
        EngineReply::Returned(raw) => match normalized(raw) {
            Ok(t) => OutcomeView::Completed(t),
            Err(e) => OutcomeView::MalformedResult(e),
        },
    }
}

/// The outcome of the race between the engine and the timer.
pub open spec fn resolved(arrival: Arrival) -> OutcomeView {
    match arrival {
        Arrival::TimerFired => OutcomeView::TimedOut,
        Arrival::Reply(reply) => settled(reply),
    }
}

fn sentinel(transcription: &str) -> (r: Response)
    ensures
        r@ == fallback(transcription@),
{
    let r = Response {
        transcription: transcription.to_owned(),
        language: "unknown".to_owned(),
        confidence: Single::zero(),
        segments: Vec::new(),
    };
    assert(r@.segments =~= Seq::empty());
    r
}

/// Renders an outcome as the body of the answer: the transcription where the
/// request completed, a sentinel where it did not.
pub fn render(outcome: Outcome) -> (r: Response)
    ensures
        r@ == rendered(outcome@),
{
    match outcome {
        Outcome::Completed(t) => Response {
            transcription: t.text,
            language: t.language,
            confidence: t.confidence,
            segments: t.segments,
        },
        Outcome::TimedOut => sentinel("Transcription timed out"),
        _ => sentinel("Transcription failed"),
    }
}

/// Turns the engine's reply into an outcome, shaping what it returned.
pub fn settle(reply: &EngineReply) -> (outcome: Outcome)
    ensures
        outcome@ == settled(*reply),
{
    match reply {
        EngineReply::Raised => Outcome::EngineFailed,
        EngineReply::Returned(raw) => match normalize(raw) {
            Ok(t) => Outcome::Completed(t),
            Err(e) => Outcome::MalformedResult(e),
        },
    }
}

/// Decides the race: a reply that came first is settled, a timer that fired
/// first ends the wait whatever the engine does later.
pub fn resolve(arrival: &Arrival) -> (outcome: Outcome)
    ensures
        outcome@ == resolved(*arrival),
{
    match arrival {
        Arrival::TimerFired => Outcome::TimedOut,
        Arrival::Reply(reply) => settle(reply),
    }
}

/// The body that answers a request, from what reached it first.
pub fn respond(arrival: &Arrival) -> (r: Response)
    ensures
        r@ == rendered(resolved(*arrival)),
{
    render(resolve(arrival))
}

/// A response keeps the segments as the engine produced them, in their
/// order: where the engine's segments each end no earlier than they start and
/// start no earlier than the one before, so do the segments of the response.
pub proof fn lemma_ordering_carried(raw: RawValue)
    requires
        violation(raw).is_none(),
        ordered(engine_segments(raw)),
    ensures
        rendered(settled(EngineReply::Returned(raw))).segments == engine_segments(raw),
        ordered(rendered(resolved(Arrival::Reply(EngineReply::Returned(raw)))).segments),
{
}

/// Shaping never alters the confidence: the response to a completed request
/// carries the number that the engine put in the third slot, bit for bit.
pub proof fn lemma_confidence_carried(raw: RawValue)
    requires
        violation(raw).is_none(),
    ensures
        normalized(raw) matches Ok(t) && RawValue::Number(t.confidence) == slots(raw)[2],
        RawValue::Number(rendered(settled(EngineReply::Returned(raw))).confidence) == slots(raw)[2],
{
}

/// Every response to a request that did not complete is a sentinel: its
/// confidence is exactly zero, its language unknown, its segments none.
pub proof fn lemma_failure_is_fallback(outcome: OutcomeView)
    requires
        !(outcome is Completed),
    ensures
        is_fallback(rendered(outcome)),
        rendered(outcome).confidence == (Single { bits: 0 }),
        rendered(outcome).segments.len() == 0,
        ordered(rendered(outcome).segments),
        outcome is TimedOut <==> rendered(outcome).transcription == "Transcription timed out"@,
{
    reveal_strlit("Transcription timed out");
    reveal_strlit("Transcription failed");
    if !(outcome is TimedOut) {
        assert("Transcription failed"@.len() != "Transcription timed out"@.len());
    }
}

/// An ill-shaped result never gets past the normalizer as anything but a
/// malformed result: a group of the wrong size, a slot of the wrong type and
/// a segment group that is no list each settle the request as malformed, and
/// nothing but an ill-shaped result does.
pub proof fn lemma_malformed_isolated(raw: RawValue)
    ensures
        settled(EngineReply::Returned(raw)) is MalformedResult <==> violation(raw).is_some(),
        settled(EngineReply::Returned(raw)) is MalformedResult || settled(EngineReply::Returned(raw)) is Completed,
        !(raw is Tuple) ==> normalized(raw) == Err::<TranscriptionView, Malformed>(Malformed::NotAGroup),
        raw matches RawValue::Tuple(parts) ==> (parts@.len() != ARITY ==> normalized(raw) == Err::<
            TranscriptionView,
            Malformed,
        >(Malformed::WrongArity { found: parts@.len() as usize })),
        raw matches RawValue::Tuple(parts) ==> (parts@.len() == ARITY && !(parts@[0] is Text && parts@[1] is Text
            && parts@[2] is Number && parts@[3] is List) ==> normalized(raw) matches Err(
            Malformed::WrongType { slot },
        )),
{
}

} // verus!
