use axum::extract::ws::Message;
use serde_json::Value;
use std::sync::Arc;
use tokio_tungstenite::tungstenite;
use websocket_stream::boundary::Payload;
use websocket_stream::error::{APIResult, Cause, ErrCode, Error, Fault};
use websocket_stream::message::MessagePayload;
use websocket_stream::schema::{
    into_payload, into_text, JSONPayload, Request, RequestBody, Response, SocketSchema,
};
use websocket_stream::websocket::Socket;

fn payload(key: &str) -> Payload {
    let mut map = Payload::new();
    map.insert(key.to_string(), Value::from(1));
    map
}

fn schema(incoming: RequestBody<u8>, outgoing: Option<u8>) -> SocketSchema<u8> {
    SocketSchema {
        incoming: Arc::new(Request { body: incoming }),
        outgoing: Arc::new(Response { body: outgoing }),
    }
}

fn encode(body: &u8, msg: &JSONPayload) -> Result<Vec<u8>, String> {
    match msg {
        Some(map) => Ok(format!("{}:{}", body, Value::Object(map.clone())).into_bytes()),
        None => Err("no message".to_string()),
    }
}

#[test]
fn outgoing_message_is_encoded_by_the_body_schema() {
    let schema = schema(RequestBody::Raw, Some(7));
    let encoded = schema.to_outgoing_message(payload("a"), encode).unwrap();
    assert_eq!(encoded, b"7:{\"a\":1}".to_vec());
    let text = Socket::handle_outgoing_message(&schema, payload("a"), encode).unwrap();
    assert_eq!(text, "7:{\"a\":1}");
}

#[test]
fn outgoing_message_needs_a_body_schema() {
    let schema = schema(RequestBody::Raw, None);
    let error = Socket::handle_outgoing_message(&schema, payload("a"), encode).unwrap_err();
    assert_eq!(error.code(), Some(ErrCode::Internal));
    match error {
        Error::Internal(cause) => {
            assert_eq!(cause, Cause::EmptyOutgoingBody);
            assert_eq!(cause.message(), "outgoing message body can't be empty");
        }
        other => panic!("{:?}", other),
    }
}

#[test]
fn outgoing_schema_error_is_handed_on() {
    let schema = schema(RequestBody::Raw, Some(7));
    let error = Socket::handle_outgoing_message(&schema, payload("a"), |_: &u8, _: &JSONPayload| {
        Err("broken".to_string())
    })
    .unwrap_err();
    assert_eq!(error.code(), None);
    assert!(matches!(error, Error::Schema(text) if text == "broken"));
}

#[test]
fn outgoing_message_that_is_not_utf8_is_an_internal_error() {
    let schema = schema(RequestBody::Raw, Some(7));
    let error: Error<String> =
        Socket::handle_outgoing_message(&schema, payload("a"), |_: &u8, _: &JSONPayload| {
            Ok(vec![b'a', 0xff])
        })
        .unwrap_err();
    assert_eq!(error.code(), Some(ErrCode::Internal));
    match error {
        Error::InvalidUtf8(error) => assert_eq!(error.into_bytes(), vec![b'a', 0xff]),
        other => panic!("{:?}", other),
    }
}

#[test]
fn text_reads_back_as_what_was_encoded() {
    let bytes = "h\u{e9}llo \u{1f980}".as_bytes().to_vec();
    let encoded: APIResult<Vec<u8>, String> = Ok(bytes.clone());
    let text = into_text(encoded).unwrap();
    assert_eq!(text, "h\u{e9}llo \u{1f980}");
    assert_eq!(Message::Text(text.clone()).payload(), Some(bytes.as_slice()));
    assert_eq!(
        tungstenite::Message::Text(text).payload(),
        Some(bytes.as_slice())
    );
}

#[test]
fn incoming_message_is_decoded_by_the_body_schema() {
    let schema = schema(RequestBody::Typed(Some(7)), None);
    let parsed = schema
        .parse_incoming_message(b"key", |body: &u8, bytes: &[u8]| {
            assert_eq!(*body, 7);
            assert_eq!(bytes, b"key");
            Ok::<JSONPayload, String>(Some(payload("key")))
        })
        .unwrap();
    assert_eq!(parsed, payload("key"));
}

#[test]
fn incoming_message_needs_a_typed_body() {
    for body in [RequestBody::Raw, RequestBody::Typed(None)] {
        let schema = schema(body, Some(7));
        let error = schema
            .parse_incoming_message(b"{}", |_: &u8, _: &[u8]| -> Result<JSONPayload, String> {
                panic!("nothing to decode with")
            })
            .unwrap_err();
        assert_eq!(error.code(), Some(ErrCode::InvalidArgument));
        match error {
            Error::InvalidArgument(fault) => {
                assert_eq!(fault, Fault::BodyType);
                assert_eq!(fault.message(), "invalid streaming body type in schema");
            }
            other => panic!("{:?}", other),
        }
    }
}

#[test]
fn incoming_message_needs_a_payload() {
    let error = into_payload::<String>(Ok(None)).unwrap_err();
    assert_eq!(error.code(), Some(ErrCode::InvalidArgument));
    match error {
        Error::InvalidArgument(fault) => {
            assert_eq!(fault, Fault::MissingPayload);
            assert_eq!(fault.message(), "missing payload");
        }
        other => panic!("{:?}", other),
    }
    let error = into_payload(Err("bad json".to_string())).unwrap_err();
    assert!(matches!(error, Error::Schema(text) if text == "bad json"));
    assert_eq!(into_payload::<String>(Ok(Some(payload("x")))).unwrap(), payload("x"));
}

#[test]
fn only_text_and_binary_messages_carry_data() {
    assert_eq!(Message::Text("ab".to_string()).payload(), Some(&b"ab"[..]));
    assert_eq!(Message::Binary(vec![0xff]).payload(), Some(&[0xff_u8][..]));
    assert_eq!(Message::Ping(vec![1]).payload(), None);
    assert_eq!(Message::Pong(vec![1]).payload(), None);
    assert_eq!(Message::Close(None).payload(), None);
    assert_eq!(tungstenite::Message::Text("ab".to_string()).payload(), Some(&b"ab"[..]));
    assert_eq!(tungstenite::Message::Binary(vec![0xff]).payload(), Some(&[0xff_u8][..]));
    assert_eq!(tungstenite::Message::Ping(vec![1]).payload(), None);
    assert_eq!(tungstenite::Message::Pong(vec![1]).payload(), None);
    assert_eq!(tungstenite::Message::Close(None).payload(), None);
    let frame = tungstenite::protocol::frame::Frame::ping(vec![1]);
    assert_eq!(tungstenite::Message::Frame(frame).payload(), None);
}

#[test]
fn only_a_typed_body_has_a_schema() {
    for (body, expected) in [
        (RequestBody::Typed(Some(7)), Some(7)),
        (RequestBody::Typed(None), None),
        (RequestBody::Raw, None),
    ] {
        assert_eq!(schema(body, None).incoming_schema(), expected.as_ref());
    }
}
