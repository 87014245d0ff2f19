//! How the messages of a stream are encoded and decoded.
//!
//! The schema of a body is a type `B` of the program around this library. What it makes of a body
//! comes in as a function argument; the checks before and after that call stand here.
use axum::extract::ws::Message;
use std::string::FromUtf8Error;
use std::sync::Arc;
use tokio_tungstenite::tungstenite;
use vstd::prelude::*;
use vstd::utf8::{encode_utf8, valid_utf8};

use crate::boundary::Payload;
use crate::error::{APIResult, Cause, Error, Fault};
use crate::message::MessagePayload;

verus! {

/// The content of a message, or `None` for one without content.
pub type JSONPayload = Option<Payload>;

/// What an endpoint takes as the body of a request.
#[derive(Debug)]
pub enum RequestBody<B> {
    /// A body with a schema, or no body.
    Typed(Option<B>),
    /// A body that is handed on unread.
    Raw,
}

/// What an endpoint takes.
#[derive(Debug)]
pub struct Request<B> {
    /// The body of what it takes.
    pub body: RequestBody<B>,
}

/// What an endpoint answers.
#[derive(Debug)]
pub struct Response<B> {
    /// The schema of the answer's body, if it has one.
    pub body: Option<B>,
}

/// The schemas of the two directions of a stream.
#[derive(Debug)]
pub struct SocketSchema<B> {
    /// What the peer sends.
    pub incoming: Arc<Request<B>>,
    /// What the peer is sent.
    pub outgoing: Arc<Response<B>>,
}

/// Whether `error` is what became of reading `data` as text.
pub open spec fn unreadable(data: Seq<u8>, error: FromUtf8Error) -> bool {
    exists|bytes: Vec<u8>|
        bytes@ == data && #[trigger] call_ensures(String::from_utf8, (bytes,), Err(error))
}

/// The text that goes out for what a body was encoded as: the bytes as text where they are UTF-8,
/// else an error.
pub open spec fn is_text<E>(encoded: APIResult<Vec<u8>, E>, text: APIResult<String, E>) -> bool {
    match encoded {
        Ok(bytes) => if valid_utf8(bytes@) {
            text matches Ok(s) && encode_utf8(s@) == bytes@
        } else {
            text matches Err(Error::InvalidUtf8(error)) && unreadable(bytes@, error)
        },
        Err(error) => text == Err::<String, Error<E>>(error),
    }
}

/// The bytes that go out as text for what a body was encoded as, if any do.
pub open spec fn sendable<E>(encoded: APIResult<Vec<u8>, E>) -> Option<Seq<u8>> {
    match encoded {
        Ok(bytes) => if valid_utf8(bytes@) {
            Some(bytes@)
        } else {
            None
        },
        Err(_) => None,
    }
}

/// The payload that comes in for what a body was decoded as.
pub open spec fn payload_spec<E>(decoded: Result<JSONPayload, E>) -> APIResult<Payload, E> {
    match decoded {
        Ok(Some(payload)) => Ok(payload),
        Ok(None) => Err(Error::InvalidArgument(Fault::MissingPayload)),
        Err(error) => Err(Error::Schema(error)),
    }
}

/// The payload in what a message was read as, if there is one.
pub open spec fn payload_in<E>(read: Option<APIResult<Payload, E>>) -> Option<Payload> {
    match read {
        Some(Ok(payload)) => Some(payload),
        _ => None,
    }
}

/// Turns an encoded message into text.
pub fn into_text<E>(encoded: APIResult<Vec<u8>, E>) -> (text: APIResult<String, E>)
    ensures
        is_text(encoded, text),
{
    match encoded {
        Ok(bytes) => match String::from_utf8(bytes) {
            Ok(text) => Ok(text),
            Err(error) => Err(Error::InvalidUtf8(error)),
        },
        Err(error) => Err(error),
    }
}

/// Takes the payload out of a decoded message, which has to hold one.
pub fn into_payload<E>(decoded: Result<JSONPayload, E>) -> (payload: APIResult<Payload, E>)
    ensures
        payload == payload_spec(decoded),
{
    match decoded {
        Ok(Some(payload)) => Ok(payload),
        Ok(None) => Err(Error::InvalidArgument(Fault::MissingPayload)),
        Err(error) => Err(Error::Schema(error)),
    }
}

impl<B> SocketSchema<B> {
    /// The schema of what the peer sends, if its messages can be read at all.
    pub open spec fn incoming_body(self) -> Option<B> {
        match self.incoming.body {
            RequestBody::Typed(body) => body,
            RequestBody::Raw => None,
        }
    }

    /// Whether `encoded` is what encoding `msg` may come to: an error where the endpoint sends no
    /// body, else what `encode` makes of the body's schema and the message.
    pub open spec fn encodes<E, F>(
        self,
        encode: F,
        msg: Payload,
        encoded: APIResult<Vec<u8>, E>,
    ) -> bool where F: FnOnce(&B, &JSONPayload) -> Result<Vec<u8>, E> {
        match self.outgoing.body {
            Some(body) => match encoded {
                Ok(bytes) => call_ensures(encode, (&body, &Some(msg)), Ok(bytes)),
                Err(Error::Schema(error)) => call_ensures(
                    encode,
                    (&body, &Some(msg)),
                    Err(error),
                ),
                Err(_) => false,
            },
            None => encoded == Err::<Vec<u8>, Error<E>>(Error::Internal(Cause::EmptyOutgoingBody)),
        }
    }

    /// Whether `payload` is what reading `bytes` may come to: an error where the endpoint takes no
    /// typed body, else the payload in what `decode` makes of the body's schema and the bytes.
    pub open spec fn parses<E, F>(
        self,
        decode: F,
        bytes: &[u8],
        payload: APIResult<Payload, E>,
    ) -> bool where F: FnOnce(&B, &[u8]) -> Result<JSONPayload, E> {
        match self.incoming_body() {
            Some(body) => exists|decoded: Result<JSONPayload, E>| #[trigger]
                call_ensures(decode, (&body, bytes), decoded) && payload == payload_spec(decoded),
            None => payload == Err::<Payload, Error<E>>(Error::InvalidArgument(Fault::BodyType)),
        }
    }

    /// Whether `read` is what a message with this data may be read as: nothing where it carries no
    /// data, else what reading the data comes to.
    pub open spec fn reads<E, F>(
        self,
        decode: F,
        data: Option<Seq<u8>>,
        read: Option<APIResult<Payload, E>>,
    ) -> bool where F: FnOnce(&B, &[u8]) -> Result<JSONPayload, E> {
        match (data, read) {
            (Some(data), Some(payload)) => exists|bytes: &[u8]|
                bytes@ == data && #[trigger] self.parses(decode, bytes, payload),
            (None, None) => true,
            _ => false,
        }
    }

    /// Borrows the schema of what the peer sends, if its messages can be read at all.
    pub fn incoming_schema(&self) -> (body: Option<&B>)
        ensures
            body is Some <==> self.incoming_body() is Some,
            body matches Some(body) ==> self.incoming_body() == Some(*body),
    {
        match &self.incoming.body {
            RequestBody::Typed(Some(body)) => Some(body),
            _ => None,
        }
    }

    /// Encodes a message for the peer, where `encode` is what the schema of the body does.
    pub fn to_outgoing_message<E, F>(&self, msg: Payload, encode: F) -> (encoded: APIResult<
        Vec<u8>,
        E,
    >) where F: FnOnce(&B, &JSONPayload) -> Result<Vec<u8>, E>
        requires
            self.outgoing.body matches Some(body) ==> call_requires(encode, (&body, &Some(msg))),
        ensures
            self.encodes(encode, msg, encoded),
    {
        match &self.outgoing.body {
            Some(body) => match encode(body, &Some(msg)) {
                Ok(bytes) => Ok(bytes),
                Err(error) => Err(Error::Schema(error)),
            },
            None => Err(Error::Internal(Cause::EmptyOutgoingBody)),
        }
    }

    /// Decodes a message of the peer, where `decode` is what the schema of the body does.
    pub fn parse_incoming_message<E, F>(&self, bytes: &[u8], decode: F) -> (payload: APIResult<
        Payload,
        E,
    >) where F: FnOnce(&B, &[u8]) -> Result<JSONPayload, E>
        requires
            self.incoming_body() matches Some(body) ==> call_requires(decode, (&body, bytes)),
        ensures
            self.parses(decode, bytes, payload),
    {
        match self.incoming_schema() {
            Some(body) => into_payload(decode(body, bytes)),
            None => Err(Error::InvalidArgument(Fault::BodyType)),
        }
    }
}

/// The text that goes out for an encoded message reads back as the bytes that it was encoded as,
/// on either side of the connection.
pub proof fn law_outgoing_text_reads_back<E>(encoded: Vec<u8>, text: String)
    requires
        is_text::<E>(Ok(encoded), Ok(text)),
    ensures
        Message::Text(text).data() == Some(encoded@),
        tungstenite::Message::Text(text).data() == Some(encoded@),
{
}

/// An encoded message goes out unless it is not UTF-8, and a message whose schema reports an error
/// does not go out.
pub proof fn law_outgoing_succeeds<E>(encoded: APIResult<Vec<u8>, E>, text: APIResult<String, E>)
    requires
        is_text(encoded, text),
    ensures
        text is Ok <==> (encoded matches Ok(bytes) && valid_utf8(bytes@)),
{
}

/// An endpoint that takes no typed body reads no message, whatever the message holds.
pub proof fn law_untyped_reads_nothing<B, E, F>(
    schema: SocketSchema<B>,
    decode: F,
    bytes: &[u8],
    payload: APIResult<Payload, E>,
) where F: FnOnce(&B, &[u8]) -> Result<JSONPayload, E>
    requires
        schema.incoming_body() is None,
        schema.parses(decode, bytes, payload),
    ensures
        payload == Err::<Payload, Error<E>>(Error::InvalidArgument(Fault::BodyType)),
{
}

/// An endpoint that sends no body sends no message, whatever the message holds.
pub proof fn law_bodiless_sends_nothing<B, E, F>(
    schema: SocketSchema<B>,
    encode: F,
    msg: Payload,
    encoded: APIResult<Vec<u8>, E>,
    text: APIResult<String, E>,
) where F: FnOnce(&B, &JSONPayload) -> Result<Vec<u8>, E>
    requires
        schema.outgoing.body is None,
        schema.encodes(encode, msg, encoded),
        is_text(encoded, text),
    ensures
        text == Err::<String, Error<E>>(Error::Internal(Cause::EmptyOutgoingBody)),
{
}

} // verus!
