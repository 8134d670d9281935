//! Envelope and payload behaviour: construction, typed recovery, the codec,
//! and the single-use response sink.

use editor::component::ComponentId;
use editor::component::interpret_response;
use editor::errors::BusError;
use editor::events::TerminalEvent;
use editor::events::decode_event;
use editor::events::encode_event;
use editor::events::topic_for_event;
use editor::message::CallResponse;
use editor::message::Message;
use editor::message::ResponseSender;
use editor::payload::TAG_STRING;
use editor::payload::TAG_TERMINAL_EVENT;
use editor::payload::TAG_USER_BASE;
use editor::payload::TypedValue;

#[derive(Debug, Clone, PartialEq, Eq)]
struct A {
    a: u32,
    b: String,
    c: bool,
}

#[test]
fn broadcast_message_from_struct() {
    let something = A {
        a: 13,
        b: String::from("foo"),
        c: true,
    };

    let mut map = serde_json::Map::new();
    map.insert("a".to_string(), serde_json::Value::from(something.a));
    map.insert("b".to_string(), serde_json::Value::from(something.b.clone()));
    map.insert("c".to_string(), serde_json::Value::from(something.c));
    let text = serde_json::to_string(&serde_json::Value::Object(map)).unwrap();
    let payload = TypedValue::new(TAG_USER_BASE, text);

    let message = Message::new_broadcast("balls", Some(payload), None);

    let got = message.get_inner(TAG_USER_BASE).unwrap();
    let parsed: serde_json::Value = serde_json::from_str(got.data()).unwrap();
    let decoded = A {
        a: parsed["a"].as_u64().unwrap() as u32,
        b: parsed["b"].as_str().unwrap().to_string(),
        c: parsed["c"].as_bool().unwrap(),
    };
    assert_eq!(something, decoded);
}

#[test]
fn string_payload_round_trips() {
    let v = String::from("hello world");
    let tv = TypedValue::of_string(&v);
    let message = Message::new_broadcast("greeting", Some(tv), None);
    let got = message.get_inner(TAG_STRING).unwrap();
    assert_eq!(got.as_string().unwrap(), "hello world");
}

#[test]
fn serde_encoding_is_not_the_identity() {
    let tv = TypedValue::of_string(&String::from("hi"));
    assert_eq!(tv.data(), "\"hi\"");
    assert_eq!(tv.tag(), TAG_STRING);
}

#[test]
fn get_inner_with_wrong_tag_is_type_mismatch() {
    let tv = TypedValue::of_string(&String::from("hello"));
    let message = Message::new_broadcast("greeting", Some(tv), None);
    assert_eq!(
        message.get_inner(TAG_TERMINAL_EVENT).unwrap_err(),
        BusError::TypeMismatch
    );
    assert_eq!(
        message.get_inner(TAG_USER_BASE).unwrap_err(),
        BusError::TypeMismatch
    );
}

#[test]
fn get_inner_without_payload_is_type_mismatch() {
    let message = Message::new_broadcast("empty", None, None);
    assert_eq!(
        message.get_inner(TAG_STRING).unwrap_err(),
        BusError::TypeMismatch
    );
}

#[test]
fn decoding_under_the_wrong_tag_never_coerces() {
    let event = TerminalEvent::Key { ch: 'x', ctrl: false };
    let tv = TypedValue::of_event(&event);
    assert_eq!(tv.as_string().unwrap_err(), BusError::TypeMismatch);

    let s = TypedValue::of_string(&String::from("k0x"));
    assert_eq!(s.as_event().unwrap_err(), BusError::TypeMismatch);
}

#[test]
fn corrupt_payload_is_serialization_error() {
    let not_json = TypedValue::new(TAG_STRING, String::from("unquoted"));
    assert_eq!(
        not_json.as_string().unwrap_err(),
        BusError::SerializationError
    );

    let not_an_event = TypedValue::new(TAG_TERMINAL_EVENT, String::from("zzz"));
    assert_eq!(
        not_an_event.as_event().unwrap_err(),
        BusError::SerializationError
    );
}

#[test]
fn event_codec_round_trips() {
    let events = vec![
        TerminalEvent::Key { ch: 'c', ctrl: true },
        TerminalEvent::Key { ch: 'q', ctrl: false },
        TerminalEvent::Mouse,
        TerminalEvent::Paste { text: String::from("pasted text") },
        TerminalEvent::Resize { width: 80, height: 24 },
        TerminalEvent::Resize { width: 1300, height: 700 },
        TerminalEvent::FocusGained,
        TerminalEvent::FocusLost,
    ];
    for e in events {
        let encoded = encode_event(&e);
        assert_eq!(decode_event(encoded.as_str()), Some(e.clone()));
        let tv = TypedValue::of_event(&e);
        assert_eq!(tv.as_event().unwrap(), e);
    }
}

#[test]
fn event_codec_rejects_garbage() {
    assert_eq!(decode_event(""), None);
    assert_eq!(decode_event("x"), None);
    assert_eq!(decode_event("k"), None);
    assert_eq!(decode_event("k2c"), None);
    assert_eq!(decode_event("mm"), None);
    assert_eq!(decode_event("r12"), None);
    assert_eq!(decode_event("gg"), None);
}

#[test]
fn event_topics_follow_the_kind() {
    assert_eq!(
        topic_for_event(&TerminalEvent::Key { ch: 'a', ctrl: false }),
        "terminal.event.key"
    );
    assert_eq!(topic_for_event(&TerminalEvent::Mouse), "terminal.event.mouse");
    assert_eq!(
        topic_for_event(&TerminalEvent::Paste { text: String::new() }),
        "terminal.event.paste"
    );
    assert_eq!(
        topic_for_event(&TerminalEvent::Resize { width: 1, height: 1 }),
        "terminal.event.resize"
    );
    assert_eq!(
        topic_for_event(&TerminalEvent::FocusGained),
        "terminal.event.focusgained"
    );
    assert_eq!(
        topic_for_event(&TerminalEvent::FocusLost),
        "terminal.event.focuslost"
    );
}

#[test]
fn respond_delivers_exactly_one_response() {
    let (sink, mut rx) = ResponseSender::channel();
    let message = Message::new_call("some.callback", None, ComponentId::new(7), sink);

    // Responding consumes the envelope, so there is no second attempt to make.
    message
        .respond(CallResponse::Value(Some(TypedValue::of_string(&String::from("once")))))
        .unwrap();

    let first = rx.try_recv().unwrap();
    match first {
        CallResponse::Value(Some(tv)) => assert_eq!(tv.as_string().unwrap(), "once"),
        _ => panic!("expected a value response"),
    }
    // The slot held exactly one response.
    assert!(rx.try_recv().is_err());
}

#[test]
fn respond_on_a_broadcast_is_a_quiet_no_op() {
    let message = Message::new_broadcast("topic", None, None);
    assert!(message.respond(CallResponse::Value(None)).is_ok());
}

#[test]
fn respond_after_caller_hung_up_fails_locally() {
    let (sink, rx) = ResponseSender::channel();
    let message = Message::new_call("some.callback", None, ComponentId::new(7), sink);
    drop(rx);
    assert_eq!(
        message.respond(CallResponse::Value(None)).unwrap_err(),
        BusError::ChannelClosed
    );
}

#[test]
fn interpret_response_maps_every_outcome() {
    assert!(matches!(interpret_response(Some(CallResponse::Value(None))), Ok(None)));
    let tv = TypedValue::of_string(&String::from("v"));
    match interpret_response(Some(CallResponse::Value(Some(tv)))) {
        Ok(Some(got)) => assert_eq!(got.as_string().unwrap(), "v"),
        _ => panic!("expected a value"),
    }
    assert_eq!(
        interpret_response(Some(CallResponse::Failure(BusError::UnknownCallback))).unwrap_err(),
        BusError::UnknownCallback
    );
    assert_eq!(
        interpret_response(None).unwrap_err(),
        BusError::ComponentUnavailable
    );
}

#[test]
fn duplicate_broadcast_copies_broadcasts_only() {
    let tv = TypedValue::of_string(&String::from("payload"));
    let message = Message::new_broadcast("topic.a", Some(tv), Some(ComponentId::new(3)));
    let copy = message.duplicate_broadcast().unwrap();
    let got = copy.get_inner(TAG_STRING).unwrap();
    assert_eq!(got.as_string().unwrap(), "payload");

    let (sink, _rx) = ResponseSender::channel();
    let call = Message::new_call("x.y", None, ComponentId::new(1), sink);
    assert!(call.duplicate_broadcast().is_none());
}

#[test]
fn error_descriptions_are_stable() {
    assert_eq!(
        BusError::UnknownCallback.describe(),
        "couldn't find callback specified"
    );
    assert_eq!(
        BusError::TypeMismatch.describe(),
        "type provided doesn't match internal type"
    );
}
