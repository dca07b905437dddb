use vstd::prelude::*;
use crate::single::Single;

verus! {

/// A time-bounded span of a transcription with its own text.
#[derive(Clone, Debug, PartialEq, Eq)]
pub struct Segment {
    pub start: Single,
    pub end: Single,
    pub text: String,
}

/// What a segment holds, as mathematics.
pub struct SegmentView {
    pub start: Single,
    pub end: Single,
    pub text: Seq<char>,
}

impl View for Segment {
    type V = SegmentView;

    open spec fn view(&self) -> SegmentView {
        SegmentView { start: self.start, end: self.end, text: self.text@ }
    }
}

/// The views of a run of segments, in order.
pub open spec fn segment_views(segments: Seq<Segment>) -> Seq<SegmentView> {
    Seq::new(segments.len(), |i: int| segments[i]@)
}

/// Every segment ends no earlier than it starts, and starts no earlier than
/// the one before it.
pub open spec fn ordered(segments: Seq<SegmentView>) -> bool {
    &&& forall|i: int| 0 <= i < segments.len() ==> (#[trigger] segments[i]).start.le_spec(segments[i].end)
    &&& forall|i: int| 0 <= i && i + 1 < segments.len() ==> (#[trigger] segments[i]).start.le_spec(segments[i + 1].start)
}

/// The engine's answer to one request, in the strict schema.
#[derive(Clone, Debug, PartialEq, Eq)]
pub struct TranscriptionResult {
    pub text: String,
    /// The language code the engine detected; may be "unknown".
    pub language: String,
    pub confidence: Single,
    pub segments: Vec<Segment>,
}

pub struct TranscriptionView {
    pub text: Seq<char>,
    pub language: Seq<char>,
    pub confidence: Single,
    pub segments: Seq<SegmentView>,
}

impl View for TranscriptionResult {
    type V = TranscriptionView;

    open spec fn view(&self) -> TranscriptionView {
        TranscriptionView {
            text: self.text@,
            language: self.language@,
            confidence: self.confidence,
            segments: segment_views(self.segments@),
        }
    }
}

/// Checks the ordering of a run of segments.
pub fn segments_ordered(segments: &Vec<Segment>) -> (b: bool)
    ensures
        b == ordered(segment_views(segments@)),
{
    let ghost views = segment_views(segments@);
    let mut i: usize = 0;
    while i < segments.len()
        invariant
            i <= segments.len(),
            views == segment_views(segments@),
            forall|j: int| 0 <= j < i ==> (#[trigger] views[j]).start.le_spec(views[j].end),
            forall|j: int| 0 <= j && j + 1 < i ==> (#[trigger] views[j]).start.le_spec(views[j + 1].start),
        decreases segments.len() - i,
    {
        if !segments[i].start.le(&segments[i].end) {
            assert(!views[i as int].start.le_spec(views[i as int].end));
            return false;
        }
        if i > 0 && !segments[i - 1].start.le(&segments[i].start) {
            assert(!views[i - 1].start.le_spec(views[i - 1 + 1].start));
            return false;
        }
        i += 1;
    }
    true
}

} // verus!
