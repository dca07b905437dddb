use transcription_service::normalize::{normalize, normalize_segment, normalize_segments, Malformed, SegmentField, Slot};
use transcription_service::raw::RawValue;
use transcription_service::single::Single;
use transcription_service::transcript::{segments_ordered, Segment, TranscriptionResult};

fn num(x: f32) -> Single {
    Single::from_bits(x.to_bits())
}

fn text(s: &str) -> RawValue {
    RawValue::Text(s.to_string())
}

fn raw_segment(start: f32, end: f32, words: &str) -> RawValue {
    RawValue::Object(vec![
        ("start".to_string(), RawValue::Number(num(start))),
        ("end".to_string(), RawValue::Number(num(end))),
        ("text".to_string(), text(words)),
    ])
}

fn hello_world() -> RawValue {
    RawValue::Tuple(vec![
        text("hello world"),
        text("en"),
        RawValue::Number(num(0.93)),
        RawValue::List(vec![raw_segment(0.0, 1.2, "hello"), raw_segment(1.2, 2.0, "world")]),
    ])
}

fn with_slot(slot: usize, value: RawValue) -> RawValue {
    match hello_world() {
        RawValue::Tuple(mut parts) => {
            parts[slot] = value;
            RawValue::Tuple(parts)
        }
        _ => unreachable!(),
    }
}

#[test]
fn normalizes_a_well_shaped_result() {
    let expected = TranscriptionResult {
        text: "hello world".to_string(),
        language: "en".to_string(),
        confidence: num(0.93),
        segments: vec![
            Segment { start: num(0.0), end: num(1.2), text: "hello".to_string() },
            Segment { start: num(1.2), end: num(2.0), text: "world".to_string() },
        ],
    };
    assert_eq!(normalize(&hello_world()), Ok(expected));
}

#[test]
fn confidence_is_carried_bit_for_bit() {
    for x in [0.0f32, -0.0, 0.93, 1.0, 1.5, -3.25, f32::INFINITY, f32::NAN, f32::MIN_POSITIVE] {
        let got = normalize(&with_slot(2, RawValue::Number(num(x)))).unwrap();
        assert_eq!(got.confidence.to_bits(), x.to_bits());
        assert_eq!(f32::from_bits(got.confidence.to_bits()).to_bits(), x.to_bits());
    }
}

#[test]
fn an_empty_segment_list_is_well_shaped() {
    let got = normalize(&with_slot(3, RawValue::List(vec![]))).unwrap();
    assert!(got.segments.is_empty());
    assert_eq!(got.text, "hello world");
    assert_eq!(got.language, "en");
}

#[test]
fn segments_keep_the_order_of_the_engine() {
    let raw = with_slot(3, RawValue::List(vec![raw_segment(5.0, 4.0, "b"), raw_segment(1.0, 2.0, "a")]));
    let got = normalize(&raw).unwrap();
    assert_eq!(got.segments.len(), 2);
    assert_eq!(got.segments[0], Segment { start: num(5.0), end: num(4.0), text: "b".to_string() });
    assert_eq!(got.segments[1], Segment { start: num(1.0), end: num(2.0), text: "a".to_string() });
    assert!(!segments_ordered(&got.segments));
}

#[test]
fn what_is_not_a_group_is_malformed() {
    assert_eq!(normalize(&RawValue::Nothing), Err(Malformed::NotAGroup));
    assert_eq!(normalize(&RawValue::Integer(4)), Err(Malformed::NotAGroup));
    assert_eq!(normalize(&text("hello world")), Err(Malformed::NotAGroup));
    assert_eq!(normalize(&RawValue::Flag(true)), Err(Malformed::NotAGroup));
    assert_eq!(normalize(&RawValue::Bytes(vec![1, 2])), Err(Malformed::NotAGroup));
    assert_eq!(normalize(&RawValue::List(vec![text("a"), text("b")])), Err(Malformed::NotAGroup));
    assert_eq!(normalize(&RawValue::Object(vec![])), Err(Malformed::NotAGroup));
}

#[test]
fn wrong_arity_is_malformed() {
    assert_eq!(normalize(&RawValue::Tuple(vec![])), Err(Malformed::WrongArity { found: 0 }));
    let three = RawValue::Tuple(vec![text("hello"), text("en"), RawValue::Number(num(0.5))]);
    assert_eq!(normalize(&three), Err(Malformed::WrongArity { found: 3 }));
    let five = RawValue::Tuple(vec![
        text("hello"),
        text("en"),
        RawValue::Number(num(0.5)),
        RawValue::List(vec![]),
        RawValue::Nothing,
    ]);
    assert_eq!(normalize(&five), Err(Malformed::WrongArity { found: 5 }));
}

#[test]
fn wrong_slot_types_are_malformed() {
    assert_eq!(normalize(&with_slot(0, RawValue::Integer(1))), Err(Malformed::WrongType { slot: Slot::Text }));
    assert_eq!(normalize(&with_slot(1, RawValue::Nothing)), Err(Malformed::WrongType { slot: Slot::Language }));
    assert_eq!(normalize(&with_slot(2, text("0.93"))), Err(Malformed::WrongType { slot: Slot::Confidence }));
    assert_eq!(normalize(&with_slot(2, RawValue::Integer(1))), Err(Malformed::WrongType { slot: Slot::Confidence }));
}

#[test]
fn a_segment_group_that_is_no_list_is_malformed() {
    assert_eq!(normalize(&with_slot(3, RawValue::Nothing)), Err(Malformed::WrongType { slot: Slot::Segments }));
    assert_eq!(
        normalize(&with_slot(3, RawValue::Tuple(vec![raw_segment(0.0, 1.0, "a")]))),
        Err(Malformed::WrongType { slot: Slot::Segments })
    );
    assert_eq!(normalize(&with_slot(3, text("segments"))), Err(Malformed::WrongType { slot: Slot::Segments }));
}

#[test]
fn the_first_violation_is_reported() {
    let raw = RawValue::Tuple(vec![RawValue::Nothing, RawValue::Nothing, RawValue::Nothing, RawValue::Nothing]);
    assert_eq!(normalize(&raw), Err(Malformed::WrongType { slot: Slot::Text }));
    let raw = with_slot(1, RawValue::Integer(0));
    let raw = match raw {
        RawValue::Tuple(mut parts) => {
            parts[3] = RawValue::Nothing;
            RawValue::Tuple(parts)
        }
        _ => unreachable!(),
    };
    assert_eq!(normalize(&raw), Err(Malformed::WrongType { slot: Slot::Language }));
}

#[test]
fn a_segment_without_a_field_is_malformed() {
    let no_end = RawValue::Object(vec![
        ("start".to_string(), RawValue::Number(num(0.0))),
        ("text".to_string(), text("hello")),
    ]);
    let raw = with_slot(3, RawValue::List(vec![raw_segment(0.0, 1.0, "a"), no_end]));
    assert_eq!(normalize(&raw), Err(Malformed::MissingField { index: 1, field: SegmentField::End }));

    let raw = with_slot(3, RawValue::List(vec![RawValue::Object(vec![])]));
    assert_eq!(normalize(&raw), Err(Malformed::MissingField { index: 0, field: SegmentField::Start }));

    let no_text = RawValue::Object(vec![
        ("start".to_string(), RawValue::Number(num(0.0))),
        ("end".to_string(), RawValue::Number(num(1.0))),
    ]);
    assert_eq!(normalize_segment(&no_text, 7), Err(Malformed::MissingField { index: 7, field: SegmentField::Text }));
}

#[test]
fn a_segment_that_exposes_nothing_is_malformed() {
    let raw = with_slot(3, RawValue::List(vec![RawValue::Integer(3)]));
    assert_eq!(normalize(&raw), Err(Malformed::MissingField { index: 0, field: SegmentField::Start }));
    let raw = with_slot(3, RawValue::List(vec![raw_segment(0.0, 1.0, "a"), text("b")]));
    assert_eq!(normalize(&raw), Err(Malformed::MissingField { index: 1, field: SegmentField::Start }));
}

#[test]
fn a_segment_field_of_the_wrong_type_is_malformed() {
    let bad_start = RawValue::Object(vec![
        ("start".to_string(), text("0.0")),
        ("end".to_string(), RawValue::Number(num(1.0))),
        ("text".to_string(), text("hello")),
    ]);
    assert_eq!(
        normalize_segments(&vec![bad_start]),
        Err(Malformed::WrongFieldType { index: 0, field: SegmentField::Start })
    );
    let bad_end = RawValue::Object(vec![
        ("start".to_string(), RawValue::Number(num(0.0))),
        ("end".to_string(), RawValue::Integer(1)),
        ("text".to_string(), text("hello")),
    ]);
    assert_eq!(
        normalize_segments(&vec![raw_segment(0.0, 1.0, "a"), raw_segment(1.0, 2.0, "b"), bad_end]),
        Err(Malformed::WrongFieldType { index: 2, field: SegmentField::End })
    );
    let bad_text = RawValue::Object(vec![
        ("start".to_string(), RawValue::Number(num(0.0))),
        ("end".to_string(), RawValue::Number(num(1.0))),
        ("text".to_string(), RawValue::Number(num(2.0))),
    ]);
    assert_eq!(
        normalize(&with_slot(3, RawValue::List(vec![bad_text]))),
        Err(Malformed::WrongFieldType { index: 0, field: SegmentField::Text })
    );
}

#[test]
fn the_first_attribute_of_a_name_counts() {
    let twice = RawValue::Object(vec![
        ("extra".to_string(), RawValue::Nothing),
        ("start".to_string(), RawValue::Number(num(1.0))),
        ("start".to_string(), text("later")),
        ("end".to_string(), RawValue::Number(num(2.0))),
        ("text".to_string(), text("hi")),
    ]);
    assert_eq!(twice.attribute(&"start".to_string()), Some(&RawValue::Number(num(1.0))));
    assert_eq!(twice.attribute(&"text".to_string()), Some(&text("hi")));
    assert_eq!(twice.attribute(&"missing".to_string()), None);
    assert_eq!(RawValue::Integer(1).attribute(&"start".to_string()), None);
    assert_eq!(
        normalize_segment(&twice, 0),
        Ok(Segment { start: num(1.0), end: num(2.0), text: "hi".to_string() })
    );
}

#[test]
fn field_names_are_those_of_the_engine() {
    assert_eq!(SegmentField::Start.name(), "start");
    assert_eq!(SegmentField::End.name(), "end");
    assert_eq!(SegmentField::Text.name(), "text");
}

#[test]
fn ordered_segments_are_recognised() {
    let ok = normalize(&hello_world()).unwrap();
    assert!(segments_ordered(&ok.segments));
    assert!(segments_ordered(&vec![]));
    let seg = |a: f32, b: f32| Segment { start: num(a), end: num(b), text: String::new() };
    assert!(segments_ordered(&vec![seg(0.0, 0.0), seg(0.0, 3.0), seg(2.5, 2.5)]));
    assert!(!segments_ordered(&vec![seg(1.0, 0.5)]));
    assert!(!segments_ordered(&vec![seg(1.0, 2.0), seg(0.5, 3.0)]));
    assert!(!segments_ordered(&vec![seg(f32::NAN, 2.0)]));
    assert!(!segments_ordered(&vec![seg(0.0, 1.0), seg(1.0, f32::NAN)]));
}

#[test]
fn comparison_agrees_with_the_hardware() {
    let samples = [
        0.0f32,
        -0.0,
        1.0,
        -1.0,
        0.93,
        1.2,
        2.0,
        -2.5,
        f32::MIN_POSITIVE,
        -f32::MIN_POSITIVE,
        f32::MAX,
        f32::MIN,
        f32::INFINITY,
        f32::NEG_INFINITY,
        f32::NAN,
        -f32::NAN,
        1.0e-40,
        -1.0e-40,
    ];
    for a in samples {
        assert_eq!(num(a).is_nan(), a.is_nan());
        for b in samples {
            assert_eq!(num(a).le(&num(b)), a <= b, "{} <= {}", a, b);
        }
    }
    assert_eq!(Single::zero().to_bits(), 0.0f32.to_bits());
}
