use ichika::element::{
    deserialize_element, deserialize_message_chain, read_element, serialize_element,
    serialize_message_chain, Elem, ElementError, Hand, Handle, ImageSource, Record, Value,
};

fn rec(fields: Vec<(&str, Value)>) -> Record {
    Record { fields: fields.into_iter().map(|(k, v)| (k.to_string(), v)).collect() }
}

fn s(x: &str) -> Value {
    Value::Str(x.to_string())
}

fn round_trip(e: Elem) {
    let r = serialize_element(&e).expect("sendable element has a record");
    let tag = match &r.fields[0] {
        (k, Value::Str(t)) if k == "type" => t.clone(),
        _ => panic!("record without type"),
    };
    let mut chain = Vec::new();
    deserialize_element(&mut chain, &tag, &r).unwrap();
    assert_eq!(chain, vec![e]);
}

#[test]
fn element_round_trips() {
    round_trip(Elem::Text { content: "hi".to_string() });
    round_trip(Elem::At { target: 123, display: "@x".to_string() });
    round_trip(Elem::Face { index: 4, name: "smile".to_string() });
    round_trip(Elem::Dice { value: 6 });
    round_trip(Elem::FingerGuessing { hand: Hand::Rock });
    round_trip(Elem::MarketFace { handle: 3 });
    round_trip(Elem::Image { flash: true, source: ImageSource::Group, url: "u".to_string(), handle: 1 });
    round_trip(Elem::LightApp { content: "{}".to_string() });
    round_trip(Elem::RichMessage { service_id: 35, content: "<xml/>".to_string() });
    round_trip(Elem::Reply { seq: 1, sender: 2, time: 3, content: "quoted".to_string() });
}

#[test]
fn at_everyone_has_its_own_tag() {
    let r = serialize_element(&Elem::At { target: 0, display: "@all".to_string() }).unwrap();
    assert_eq!(r, rec(vec![("type", s("AtAll"))]));
    let back = read_element("AtAll", &r).unwrap();
    assert_eq!(back, Some(Elem::At { target: 0, display: "@全体成员".to_string() }));
}

#[test]
fn text_record_fields() {
    let r = serialize_element(&Elem::Text { content: "hi".to_string() }).unwrap();
    assert_eq!(r, rec(vec![("type", s("Text")), ("text", s("hi"))]));
}

#[test]
fn other_and_unknown_elements() {
    assert_eq!(serialize_element(&Elem::Other), None);
    let r = serialize_element(&Elem::Unknown { debug: "Foo(1)".to_string() }).unwrap();
    assert_eq!(r, rec(vec![("type", s("Unknown")), ("raw", s("Foo(1)"))]));
    assert_eq!(read_element("Unknown", &r), Err(ElementError::UnknownElement("Unknown".to_string())));
}

#[test]
fn at_display_falls_back_to_target() {
    let r = rec(vec![("type", s("At")), ("target", Value::Int(-42)), ("display", Value::Int(0))]);
    assert_eq!(read_element("At", &r), Ok(Some(Elem::At { target: -42, display: "@-42".to_string() })));
    let missing = rec(vec![("type", s("At")), ("target", Value::Int(5))]);
    assert_eq!(read_element("At", &missing), Err(ElementError::MissingField("display".to_string())));
}

#[test]
fn field_errors() {
    let r = rec(vec![("value", s("six"))]);
    assert_eq!(read_element("Dice", &r), Err(ElementError::BadField("value".to_string())));
    let big = rec(vec![("value", Value::Int(1 << 40))]);
    assert_eq!(read_element("Dice", &big), Err(ElementError::BadField("value".to_string())));
    assert_eq!(read_element("Text", &rec(vec![])), Err(ElementError::MissingField("text".to_string())));
    let raw = rec(vec![("raw", Value::Handle(Handle::MarketFace(1)))]);
    assert_eq!(read_element("Image", &raw), Err(ElementError::BadField("raw".to_string())));
}

#[test]
fn unknown_finger_guess_is_skipped() {
    let r = rec(vec![("choice", s("Lizard"))]);
    assert_eq!(read_element("FingerGuessing", &r), Ok(None));
    let mut chain = vec![Elem::Dice { value: 1 }];
    deserialize_element(&mut chain, "FingerGuessing", &r).unwrap();
    assert_eq!(chain, vec![Elem::Dice { value: 1 }]);
}

#[test]
fn forward_card_reads_as_rich_message() {
    let r = rec(vec![("service_id", Value::Int(35)), ("content", s("x"))]);
    assert_eq!(
        read_element("ForwardCard", &r),
        Ok(Some(Elem::RichMessage { service_id: 35, content: "x".to_string() }))
    );
}

#[test]
fn chain_reads_reply_first() {
    let list = vec![
        rec(vec![("type", s("Text")), ("text", s("hello"))]),
        rec(vec![
            ("type", s("Reply")),
            ("seq", Value::Int(9)),
            ("sender", Value::Int(8)),
            ("time", Value::Int(7)),
            ("content", s("earlier")),
        ]),
    ];
    let chain = deserialize_message_chain(&list).unwrap();
    assert_eq!(
        chain,
        vec![
            Elem::Reply { seq: 9, sender: 8, time: 7, content: "earlier".to_string() },
            Elem::Text { content: "hello".to_string() },
        ]
    );
}

#[test]
fn chain_errors() {
    let no_type = vec![rec(vec![("text", s("x"))])];
    assert_eq!(deserialize_message_chain(&no_type), Err(ElementError::MissingType));
    let bad_type = vec![rec(vec![("type", Value::Int(1))])];
    assert_eq!(deserialize_message_chain(&bad_type), Err(ElementError::BadField("type".to_string())));
    let unknown = vec![rec(vec![("type", s("Nope"))])];
    assert_eq!(deserialize_message_chain(&unknown), Err(ElementError::UnknownElement("Nope".to_string())));
}

#[test]
fn chain_serialization_skips_hidden_elements() {
    let chain = vec![Elem::Other, Elem::Dice { value: 2 }, Elem::At { target: 0, display: "@a".to_string() }];
    let records = serialize_message_chain(&chain);
    assert_eq!(
        records,
        vec![rec(vec![("type", s("Dice")), ("value", Value::Int(2))]), rec(vec![("type", s("AtAll"))])]
    );
}
