//! What the library takes on trust: the types and functions of the standard library and of other
//! crates that it uses, and what is believed of each.
//!
//! A channel handle is shared, so what a call on it returns depends on its other holders, and most
//! functions of channels promise little or nothing. [`crate::channel`] says how the contracts of
//! the library speak of such calls all the same.
use bytes::Bytes;
use std::string::FromUtf8Error;
use tokio::sync::mpsc::error::SendError;
use tokio::sync::mpsc::{unbounded_channel, UnboundedReceiver, UnboundedSender};
use tokio::sync::{watch, Mutex};
use tokio_tungstenite::tungstenite;
use vstd::prelude::*;
use vstd::utf8::{encode_utf8, valid_utf8};

verus! {

/// A JSON object, the content of every message on a stream.
pub type Payload = serde_json::Map<String, serde_json::Value>;

/// `serde_json::Map`, which the library only carries.
#[verifier::external_type_specification]
#[verifier::external_body]
#[verifier::reject_recursive_types(K)]
#[verifier::reject_recursive_types(V)]
pub struct ExJsonMap<K, V>(serde_json::Map<K, V>);

/// `serde_json::Value`, which the library only carries.
#[verifier::external_type_specification]
#[verifier::external_body]
pub struct ExJsonValue(serde_json::Value);

/// `tungstenite::Message`, with its variants as that crate declares them.
#[verifier::external_type_specification]
pub struct ExTungsteniteMessage(tungstenite::Message);

/// `tungstenite::protocol::frame::Frame`, which the library only carries.
#[verifier::external_type_specification]
#[verifier::external_body]
pub struct ExTungsteniteFrame(tungstenite::protocol::frame::Frame);

/// `tungstenite::protocol::CloseFrame`, which the library only carries.
#[verifier::external_type_specification]
#[verifier::external_body]
pub struct ExTungsteniteCloseFrame<'t>(tungstenite::protocol::CloseFrame<'t>);

/// `axum::extract::ws::Message`, with its variants as that crate declares them.
#[verifier::external_type_specification]
pub struct ExAxumMessage(axum::extract::ws::Message);

/// `axum::extract::ws::CloseFrame`, which the library only carries.
#[verifier::external_type_specification]
#[verifier::external_body]
pub struct ExAxumCloseFrame<'t>(axum::extract::ws::CloseFrame<'t>);

/// `tokio::sync::mpsc::UnboundedSender`, one of the sending ends of a channel.
#[verifier::external_type_specification]
#[verifier::external_body]
#[verifier::reject_recursive_types(T)]
pub struct ExUnboundedSender<T>(UnboundedSender<T>);

/// `tokio::sync::mpsc::UnboundedReceiver`, the receiving end of a channel.
#[verifier::external_type_specification]
#[verifier::external_body]
#[verifier::reject_recursive_types(T)]
pub struct ExUnboundedReceiver<T>(UnboundedReceiver<T>);

/// `tokio::sync::mpsc::error::SendError`, whose one field is the message that was refused.
#[verifier::external_type_specification]
pub struct ExSendError<T>(SendError<T>);

/// `tokio::sync::watch::Sender`, the end of a watch channel that sets its value.
#[verifier::external_type_specification]
#[verifier::external_body]
#[verifier::reject_recursive_types(T)]
pub struct ExWatchSender<T>(watch::Sender<T>);

/// `tokio::sync::watch::Receiver`, the end of a watch channel that waits for a change.
#[verifier::external_type_specification]
#[verifier::external_body]
#[verifier::reject_recursive_types(T)]
pub struct ExWatchReceiver<T>(watch::Receiver<T>);

/// `tokio::sync::watch::error::SendError`, whose one field is the value that was refused.
#[verifier::external_type_specification]
pub struct ExWatchSendError<T>(watch::error::SendError<T>);

/// `tokio::sync::Mutex`, an asynchronous lock around a value.
#[verifier::external_type_specification]
#[verifier::external_body]
#[verifier::reject_recursive_types(T)]
pub struct ExMutex<T: ?Sized>(Mutex<T>);

/// `bytes::Bytes`, a shared buffer.
#[verifier::external_type_specification]
#[verifier::external_body]
pub struct ExBytes(Bytes);

/// `std::string::FromUtf8Error`, which the library only carries.
#[verifier::external_type_specification]
#[verifier::external_body]
pub struct ExFromUtf8Error(FromUtf8Error);

/// The bytes that a `bytes::Bytes` buffer holds.
pub uninterp spec fn buffered(buffer: Bytes) -> Seq<u8>;

/// `tokio::sync::mpsc::unbounded_channel`: makes a channel and hands out its two ends.
pub assume_specification<T>[ unbounded_channel::<T> ]() -> (made: (
    UnboundedSender<T>,
    UnboundedReceiver<T>,
))
;

/// `UnboundedSender::send`: a message that is refused comes back in the error. Whether it is
/// refused depends on the receiving end, which others hold, so that is left unsaid.
pub assume_specification<T>[ UnboundedSender::<T>::send ](
    sender: &UnboundedSender<T>,
    message: T,
) -> (outcome: Result<(), SendError<T>>)
    ensures
        outcome matches Err(refused) ==> refused.0 == message,
;

/// `UnboundedReceiver::close`: nothing is claimed of the closed end. That later sends are refused
/// and that what was queued can still be received are facts about calls on either end that come
/// after this one, which no clause on the receiver alone can state.
pub assume_specification<T>[ UnboundedReceiver::<T>::close ](receiver: &mut UnboundedReceiver<T>)
;

/// `tokio::sync::watch::channel`: makes a watch channel with a first value and hands out its two
/// ends.
pub assume_specification<T>[ watch::channel::<T> ](init: T) -> (made: (
    watch::Sender<T>,
    watch::Receiver<T>,
))
;

/// `tokio::sync::watch::Sender::send`: a value that is refused comes back in the error. Whether it
/// is refused depends on the receivers that are left, so that is left unsaid.
pub assume_specification<T>[ watch::Sender::<T>::send ](sender: &watch::Sender<T>, value: T) -> (
    outcome: Result<(), watch::error::SendError<T>>)
    ensures
        outcome matches Err(refused) ==> refused.0 == value,
;

/// `tokio::sync::Mutex`'s `From`: puts a value behind a new lock. Nothing is claimed of the lock:
/// what it holds may change under any shared reference to it.
pub assume_specification<T>[ <Mutex<T> as From<T>>::from ](value: T) -> (lock: Mutex<T>)
;

/// `Vec<u8>`'s `From<Bytes>`: the vector holds the bytes of the buffer.
pub assume_specification[ <Vec<u8> as From<Bytes>>::from ](buffer: Bytes) -> (bytes: Vec<u8>)
    ensures
        bytes@ == buffered(buffer),
;

/// `Bytes`'s `From<Vec<u8>>`: the buffer holds the bytes of the vector.
pub assume_specification[ <Bytes as From<Vec<u8>>>::from ](bytes: Vec<u8>) -> (buffer: Bytes)
    ensures
        buffered(buffer) == bytes@,
;

/// `Bytes`'s `From<String>`: the buffer holds the UTF-8 encoding of the string.
pub assume_specification[ <Bytes as From<String>>::from ](text: String) -> (buffer: Bytes)
    ensures
        buffered(buffer) == encode_utf8(text@),
;

/// `String::from_utf8`: succeeds exactly on valid UTF-8, with the string that the bytes encode.
pub assume_specification[ String::from_utf8 ](bytes: Vec<u8>) -> (text: Result<
    String,
    FromUtf8Error,
>)
    ensures
        text is Ok <==> valid_utf8(bytes@),
        text matches Ok(s) ==> encode_utf8(s@) == bytes@,
;

} // verus!
