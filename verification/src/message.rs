//! What a websocket message carries.
use axum::extract::ws::Message;
use tokio_tungstenite::tungstenite;
use vstd::prelude::*;
use vstd::utf8::{encode_utf8, encode_utf8_valid_utf8, valid_utf8};

verus! {

/// A websocket message, of which only text and binary ones carry data.
pub trait MessagePayload {
    /// The data that the message carries, or `None` for one that only controls the connection.
    spec fn data(&self) -> Option<Seq<u8>>;

    /// Borrows the data that the message carries.
    fn payload(&self) -> (payload: Option<&[u8]>)
        ensures
            payload is Some <==> self.data() is Some,
            payload matches Some(bytes) ==> self.data() == Some(bytes@),
    ;
}

impl MessagePayload for Message {
    open spec fn data(&self) -> Option<Seq<u8>> {
        match self {
            Message::Text(text) => Some(encode_utf8(text@)),
            Message::Binary(data) => Some(data@),
            Message::Ping(_) | Message::Pong(_) | Message::Close(_) => None,
        }
    }

    fn payload(&self) -> (payload: Option<&[u8]>) {
        match self {
            Message::Text(text) => Some(text.as_str().as_bytes()),
            Message::Binary(data) => Some(data.as_slice()),
            // These are handled by axum.
            Message::Ping(_) | Message::Pong(_) | Message::Close(_) => None,
        }
    }
}

impl MessagePayload for tungstenite::Message {
    open spec fn data(&self) -> Option<Seq<u8>> {
        match self {
            tungstenite::Message::Text(text) => Some(encode_utf8(text@)),
            tungstenite::Message::Binary(data) => Some(data@),
            tungstenite::Message::Ping(_) => None,
            tungstenite::Message::Pong(_) => None,
            tungstenite::Message::Close(_) => None,
            tungstenite::Message::Frame(_) => None,
        }
    }

    fn payload(&self) -> (payload: Option<&[u8]>) {
        match self {
            tungstenite::Message::Text(text) => Some(text.as_str().as_bytes()),
            tungstenite::Message::Binary(data) => Some(data.as_slice()),
            tungstenite::Message::Ping(_) => None,
            tungstenite::Message::Pong(_) => None,
            tungstenite::Message::Close(_) => None,
            tungstenite::Message::Frame(_) => None,
        }
    }
}

/// The data of a text message is UTF-8, on either side of the connection.
pub proof fn law_text_data_is_utf8(sent: Message, received: tungstenite::Message)
    ensures
        sent matches Message::Text(text) ==> sent.data() matches Some(data) && valid_utf8(data),
        received matches tungstenite::Message::Text(text) ==> received.data() matches Some(data)
            && valid_utf8(data),
{
    broadcast use encode_utf8_valid_utf8;

}

} // verus!
