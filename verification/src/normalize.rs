use vstd::prelude::*;
use crate::raw::RawValue;
use crate::single::Single;
use crate::transcript::{segment_views, Segment, SegmentView, TranscriptionResult, TranscriptionView};

verus! {

/// How many values the engine's fixed-arity group holds.
pub const ARITY: usize = 4;

/// A place in the engine's fixed-arity group.
#[derive(Clone, Copy, Debug, PartialEq, Eq, Structural)]
pub enum Slot {
    Text,
    Language,
    Confidence,
    Segments,
}

/// A field that every segment-like value must expose.
#[derive(Clone, Copy, Debug, PartialEq, Eq, Structural)]
pub enum SegmentField {
    Start,
    End,
    Text,
}

/// The way in which a raw result fails the expected shape.
#[derive(Clone, Copy, Debug, PartialEq, Eq, Structural)]
pub enum Malformed {
    /// The result is not a fixed-arity group at all.
    NotAGroup,
    /// The group holds `found` values in place of four.
    WrongArity { found: usize },
    /// The value in `slot` is not of the type that the slot takes.
    WrongType { slot: Slot },
    /// The segment at `index` does not expose `field`.
    MissingField { index: usize, field: SegmentField },
    /// The segment at `index` exposes `field` with a value of another type.
    WrongFieldType { index: usize, field: SegmentField },
}

impl SegmentField {
    /// The attribute's name on a segment-like value.
    pub open spec fn name_spec(self) -> Seq<char> {
        match self {
            SegmentField::Start => "start"@,
            SegmentField::End => "end"@,
            SegmentField::Text => "text"@,
        }
    }

    /// Whether the field takes `value`: numbers for the two times, text for the text.
    pub open spec fn accepts(self, value: RawValue) -> bool {
        match self {
            SegmentField::Text => value is Text,
            _ => value is Number,
        }
    }

    pub fn name(&self) -> (name: String)
        ensures
            name@ == self.name_spec(),
    {
        match self {
            SegmentField::Start => "start".to_owned(),
            SegmentField::End => "end".to_owned(),
            SegmentField::Text => "text".to_owned(),
        }
    }
}

/// The text that a raw value holds, empty where it holds none.
pub open spec fn text_in(value: RawValue) -> Seq<char> {
    match value {
        RawValue::Text(s) => s@,
        _ => Seq::empty(),
    }
}

/// The number that a raw value holds, zero where it holds none.
pub open spec fn number_in(value: RawValue) -> Single {
    match value {
        RawValue::Number(x) => x,
        _ => Single::zero_spec(),
    }
}

/// What is wrong with one field of the segment at `index`, if anything.
pub open spec fn field_violation(item: RawValue, index: usize, field: SegmentField) -> Option<Malformed> {
    match item.attribute_spec(field.name_spec()) {
        None => Some(Malformed::MissingField { index, field }),
        Some(value) => if field.accepts(value) {
            None
        } else {
            Some(Malformed::WrongFieldType { index, field })
        },
    }
}

/// The first thing wrong with the segment at `index`, its fields taken in
/// the order start, end, text.
pub open spec fn segment_violation(item: RawValue, index: usize) -> Option<Malformed> {
    if field_violation(item, index, SegmentField::Start).is_some() {
        field_violation(item, index, SegmentField::Start)
    } else if field_violation(item, index, SegmentField::End).is_some() {
        field_violation(item, index, SegmentField::End)
    } else {
        field_violation(item, index, SegmentField::Text)
    }
}

/// The segment that a well-shaped segment-like value stands for.
pub open spec fn segment_in(item: RawValue) -> SegmentView {
    SegmentView {
        start: number_in(item.attribute_spec(SegmentField::Start.name_spec()).unwrap()),
        end: number_in(item.attribute_spec(SegmentField::End.name_spec()).unwrap()),
        text: text_in(item.attribute_spec(SegmentField::Text.name_spec()).unwrap()),
    }
}

/// The violation of the first ill-shaped segment at or after `from`.
pub open spec fn segments_violation_from(items: Seq<RawValue>, from: int) -> Option<Malformed>
    decreases items.len() - from,
{
    if from < 0 || from >= items.len() {
        None
    } else if segment_violation(items[from], from as usize).is_some() {
        segment_violation(items[from], from as usize)
    } else {
        segments_violation_from(items, from + 1)
    }
}

/// The segments that a list of well-shaped segment-like values stands for, in the list's order.
pub open spec fn segments_in(items: Seq<RawValue>) -> Seq<SegmentView> {
    Seq::new(items.len(), |i: int| segment_in(items[i]))
}

/// The first thing wrong with a raw result's shape, none where it is well shaped.
///
/// The group is examined before its slots, the slots in their order, the
/// segments in the list's order.
pub open spec fn violation(raw: RawValue) -> Option<Malformed> {
    match raw {
        RawValue::Tuple(parts) => {
            if parts@.len() != ARITY {
                Some(Malformed::WrongArity { found: parts@.len() as usize })
            } else if !(parts@[0] is Text) {
                Some(Malformed::WrongType { slot: Slot::Text })
            } else if !(parts@[1] is Text) {
                Some(Malformed::WrongType { slot: Slot::Language })
            } else if !(parts@[2] is Number) {
                Some(Malformed::WrongType { slot: Slot::Confidence })
            } else {
                match parts@[3] {
                    RawValue::List(items) => segments_violation_from(items@, 0),
                    _ => Some(Malformed::WrongType { slot: Slot::Segments }),
                }
            }
        },
        _ => Some(Malformed::NotAGroup),
    }
}

/// The segment-like values of a raw result, none where the last slot is no list.
pub open spec fn items_in(value: RawValue) -> Seq<RawValue> {
    match value {
        RawValue::List(items) => items@,
        _ => Seq::empty(),
    }
}

/// The values of the engine's group, none where the raw result is no group.
pub open spec fn slots(raw: RawValue) -> Seq<RawValue> {
    match raw {
        RawValue::Tuple(parts) => parts@,
        _ => Seq::empty(),
    }
}

/// The segments that the engine produced, as a well-shaped raw result holds
/// them in its last slot.
pub open spec fn engine_segments(raw: RawValue) -> Seq<SegmentView>
    recommends
        violation(raw).is_none(),
{
    segments_in(items_in(slots(raw)[3]))
}

/// The transcription that a well-shaped raw result stands for: every value
/// as the engine gave it, nothing corrected, nothing reordered.
pub open spec fn transcription_in(raw: RawValue) -> TranscriptionView
    recommends
        violation(raw).is_none(),
{
    TranscriptionView {
        text: text_in(slots(raw)[0]),
        language: text_in(slots(raw)[1]),
        confidence: number_in(slots(raw)[2]),
        segments: engine_segments(raw),
    }
}

/// What normalizing a raw result gives: the transcription it stands for, or
/// the first violation of the shape.
pub open spec fn normalized(raw: RawValue) -> Result<TranscriptionView, Malformed> {
    match violation(raw) {
        Some(e) => Err(e),
        None => Ok(transcription_in(raw)),
    }
}

/// The violation reported for a list of segments is that of its first
/// ill-shaped segment at or after `from`; none is reported exactly when every
/// segment from there on is well shaped.
pub proof fn lemma_first_violation(items: Seq<RawValue>, from: int)
    requires
        0 <= from,
    ensures
        match segments_violation_from(items, from) {
            Some(e) => exists|i: int|
                from <= i < items.len() && segment_violation(items[i], i as usize) == Some(e) && forall|j: int|
                    from <= j < i ==> segment_violation(items[j], j as usize).is_none(),
            None => forall|j: int| from <= j < items.len() ==> segment_violation(items[j], j as usize).is_none(),
        },
    decreases items.len() - from,
{
    if from < items.len() {
        if segment_violation(items[from], from as usize).is_some() {
            assert(forall|j: int| from <= j < from ==> segment_violation(items[j], j as usize).is_none());
        } else {
            lemma_first_violation(items, from + 1);
            if let Some(e) = segments_violation_from(items, from + 1) {
                let i = choose|i: int|
                    from + 1 <= i < items.len() && segment_violation(items[i], i as usize) == Some(e) && forall|j: int|
                        from + 1 <= j < i ==> segment_violation(items[j], j as usize).is_none();
                assert(forall|j: int| from <= j < i ==> segment_violation(items[j], j as usize).is_none());
            }
        }
    }
}

/// Reads one number field of the segment at `index`.
fn number_field(item: &RawValue, index: usize, field: SegmentField) -> (r: Result<Single, Malformed>)
    requires
        field != SegmentField::Text,
    ensures
        match r {
            Ok(x) => field_violation(*item, index, field).is_none()
                && x == number_in(item.attribute_spec(field.name_spec()).unwrap()),
            Err(e) => field_violation(*item, index, field) == Some(e),
        },
{
    let name = field.name();
    match item.attribute(&name) {
        None => Err(Malformed::MissingField { index, field }),
        Some(value) => match value {
            RawValue::Number(x) => Ok(*x),
            _ => Err(Malformed::WrongFieldType { index, field }),
        },
    }
}

/// Reads the text field of the segment at `index`.
fn text_field(item: &RawValue, index: usize) -> (r: Result<String, Malformed>)
    ensures
        match r {
            Ok(s) => field_violation(*item, index, SegmentField::Text).is_none()
                && s@ == text_in(item.attribute_spec(SegmentField::Text.name_spec()).unwrap()),
            Err(e) => field_violation(*item, index, SegmentField::Text) == Some(e),
        },
{
    let name = SegmentField::Text.name();
    match item.attribute(&name) {
        None => Err(Malformed::MissingField { index, field: SegmentField::Text }),
        Some(value) => match value {
            RawValue::Text(s) => Ok(s.clone()),
            _ => Err(Malformed::WrongFieldType { index, field: SegmentField::Text }),
        },
    }
}

/// Shapes the segment-like value at `index` of the engine's list into a segment.
pub fn normalize_segment(item: &RawValue, index: usize) -> (r: Result<Segment, Malformed>)
    ensures
        match r {
            Ok(s) => segment_violation(*item, index).is_none() && s@ == segment_in(*item),
            Err(e) => segment_violation(*item, index) == Some(e),
        },
{
    let start = match number_field(item, index, SegmentField::Start) {
        Ok(x) => x,
        Err(e) => { return Err(e); },
    };
    let end = match number_field(item, index, SegmentField::End) {
        Ok(x) => x,
        Err(e) => { return Err(e); },
    };
    let text = match text_field(item, index) {
        Ok(s) => s,
        Err(e) => { return Err(e); },
    };
    Ok(Segment { start, end, text })
}

/// Shapes the engine's list of segment-like values, stopping at the first ill-shaped one.
pub fn normalize_segments(items: &Vec<RawValue>) -> (r: Result<Vec<Segment>, Malformed>)
    ensures
        match r {
            Ok(segments) => segments_violation_from(items@, 0).is_none()
                && segment_views(segments@) == segments_in(items@),
            Err(e) => segments_violation_from(items@, 0) == Some(e),
        },
{
    let mut segments: Vec<Segment> = Vec::new();
    let mut i: usize = 0;
    while i < items.len()
        invariant
            i <= items.len(),
            segments@.len() == i,
            segments_violation_from(items@, 0) == segments_violation_from(items@, i as int),
            forall|j: int| 0 <= j < i ==> (#[trigger] segments@[j])@ == segment_in(items@[j]),
        decreases items.len() - i,
    {
        match normalize_segment(&items[i], i) {
            Ok(segment) => { segments.push(segment); },
            Err(e) => { return Err(e); },
        }
        i += 1;
    }
    assert(segment_views(segments@) =~= segments_in(items@));
    Ok(segments)
}

/// Shapes the engine's raw result into the strict schema.
///
/// Succeeds exactly on a group of four whose slots hold a text, a text, a
/// number and a list of values that each expose a numeric `start`, a numeric
/// `end` and a textual `text`. Every other result is reported with its first
/// violation. Values are carried over as they are: the confidence and the
/// times are neither range-checked nor corrected, segments keep their order.
pub fn normalize(raw: &RawValue) -> (r: Result<TranscriptionResult, Malformed>)
    ensures
        match r {
            Ok(t) => normalized(*raw) == Ok::<TranscriptionView, Malformed>(t@),
            Err(e) => normalized(*raw) == Err::<TranscriptionView, Malformed>(e),
        },
{
    let parts = match raw {
        RawValue::Tuple(parts) => parts,
        _ => { return Err(Malformed::NotAGroup); },
    };
    if parts.len() != ARITY {
        return Err(Malformed::WrongArity { found: parts.len() });
    }
    let text = match &parts[0] {
        RawValue::Text(s) => s.clone(),
        _ => { return Err(Malformed::WrongType { slot: Slot::Text }); },
    };
    let language = match &parts[1] {
        RawValue::Text(s) => s.clone(),
        _ => { return Err(Malformed::WrongType { slot: Slot::Language }); },
    };
    let confidence = match &parts[2] {
        RawValue::Number(x) => *x,
        _ => { return Err(Malformed::WrongType { slot: Slot::Confidence }); },
    };
    let items = match &parts[3] {
        RawValue::List(items) => items,
        _ => { return Err(Malformed::WrongType { slot: Slot::Segments }); },
    };
    let segments = match normalize_segments(items) {
        Ok(segments) => segments,
        Err(e) => { return Err(e); },
    };
    Ok(TranscriptionResult { text, language, confidence, segments })
}

} // verus!
