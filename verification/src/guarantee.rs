//! What the operations of a stream do, said of their inputs and results alone.
//!
//! Each law takes a call of an operation, as `call_ensures` of it, and says what its result is in
//! terms of what the schema's functions, the channels and the standard library gave for it.
use axum::extract::ws::Message;
use bytes::Bytes;
use std::sync::Arc;
use tokio::sync::mpsc::error::SendError;
use tokio::sync::mpsc::{unbounded_channel, UnboundedReceiver, UnboundedSender};
use tokio::sync::{watch, Mutex};
use tokio_tungstenite::tungstenite;
use vstd::prelude::*;
use vstd::utf8::{encode_utf8, valid_utf8};

use crate::boundary::{buffered, Payload};
use crate::channel::{Courier, Outbox};
use crate::delivery::{Delivery, DeliveryStep};
use crate::error::{APIResult, Cause, ChannelClosed, Error, Fault};
use crate::message::MessagePayload;
use crate::model::{RequestData, StreamRequestData};
use crate::schema::{
    into_payload, into_text, JSONPayload, Request, RequestBody, Response, SocketSchema,
};
use crate::websocket::{
    upgrade_request, Handled, IncomingTurn, OutgoingTurn, Responded, Sink, Socket,
    SocketTask, StopReason, Upgrade,
};
use crate::websocket_client::{
    post, ReceiveTask, ReceiveTurn, Received, SendFailure, SendTask, SendTurn, WebSocketClient,
};

verus! {

/// Text of any length carries its whole UTF-8 encoding, binary data of any length carries itself,
/// and no other message carries data. This is what a message hands out.
pub proof fn law_message_data(msg: Message, payload: Option<&[u8]>)
    requires
        call_ensures(<Message as MessagePayload>::payload, (&msg,), payload),
    ensures
        msg.data() == match msg {
            Message::Text(text) => Some(encode_utf8(text@)),
            Message::Binary(data) => Some(data@),
            _ => None,
        },
        match msg {
            Message::Text(text) => payload matches Some(bytes) && bytes@ == encode_utf8(text@),
            Message::Binary(data) => payload matches Some(bytes) && bytes@ == data@,
            _ => payload is None,
        },
{
}

/// The same of the messages of a connection that was opened.
pub proof fn law_opened_message_data(msg: tungstenite::Message, payload: Option<&[u8]>)
    requires
        call_ensures(<tungstenite::Message as MessagePayload>::payload, (&msg,), payload),
    ensures
        msg.data() == match msg {
            tungstenite::Message::Text(text) => Some(encode_utf8(text@)),
            tungstenite::Message::Binary(data) => Some(data@),
            _ => None,
        },
        match msg {
            tungstenite::Message::Text(text) => payload matches Some(bytes) && bytes@
                == encode_utf8(text@),
            tungstenite::Message::Binary(data) => payload matches Some(bytes) && bytes@ == data@,
            _ => payload is None,
        },
{
}

/// A message is read as its schema decodes it: where the endpoint takes a typed body, `decode` was
/// called on that body and on the bytes, and what it gave decides; else nothing is read.
pub proof fn law_parsed_as_decoded<B, E, F>(
    schema: SocketSchema<B>,
    bytes: &[u8],
    decode: F,
    payload: APIResult<Payload, E>,
) where F: FnOnce(&B, &[u8]) -> Result<JSONPayload, E>
    requires
        call_ensures(
            SocketSchema::<B>::parse_incoming_message::<E, F>,
            (&schema, bytes, decode),
            payload,
        ),
    ensures
        match schema.incoming.body {
            RequestBody::Typed(Some(body)) => match payload {
                Ok(payload) => call_ensures(decode, (&body, bytes), Ok(Some(payload))),
                Err(Error::InvalidArgument(Fault::MissingPayload)) => call_ensures(
                    decode,
                    (&body, bytes),
                    Ok(None),
                ),
                Err(Error::Schema(error)) => call_ensures(decode, (&body, bytes), Err(error)),
                Err(_) => false,
            },
            _ => payload == Err::<Payload, Error<E>>(Error::InvalidArgument(Fault::BodyType)),
        },
{
}

/// Bytes of any length that a typed body can only decode as a payload are read as that payload.
pub proof fn law_accepted_is_read<B, E, F>(
    schema: SocketSchema<B>,
    body: B,
    bytes: &[u8],
    decode: F,
    expected: Payload,
    payload: APIResult<Payload, E>,
) where F: FnOnce(&B, &[u8]) -> Result<JSONPayload, E>
    requires
        call_ensures(
            SocketSchema::<B>::parse_incoming_message::<E, F>,
            (&schema, bytes, decode),
            payload,
        ),
        schema.incoming.body == RequestBody::Typed(Some(body)),
        forall|decoded: Result<JSONPayload, E>| #[trigger]
            call_ensures(decode, (&body, bytes), decoded) ==> decoded == Ok::<JSONPayload, E>(
                Some(expected),
            ),
    ensures
        payload == Ok::<Payload, Error<E>>(expected),
{
}

/// The schema of what the peer sends is the typed body of the endpoint, where it takes one.
pub proof fn law_schema_is_typed_body<B>(schema: SocketSchema<B>, found: Option<&B>)
    requires
        call_ensures(SocketSchema::<B>::incoming_schema, (&schema,), found),
    ensures
        match schema.incoming.body {
            RequestBody::Typed(Some(body)) => found == Some(&body),
            _ => found is None,
        },
{
}

/// What was decoded is taken as it is.
pub proof fn law_payload_is_taken<E>(
    decoded: Result<JSONPayload, E>,
    payload: APIResult<Payload, E>,
)
    requires
        call_ensures(into_payload::<E>, (decoded,), payload),
    ensures
        payload == match decoded {
            Ok(Some(payload)) => Ok::<Payload, Error<E>>(payload),
            Ok(None) => Err(Error::InvalidArgument(Fault::MissingPayload)),
            Err(error) => Err(Error::Schema(error)),
        },
{
}

/// A message of the peer is delivered, dropped or passed over as its schema decodes its data:
/// - it is passed over exactly where it carries no data;
/// - a payload that is delivered is one that `decode` gave for all of the data, and is all that the
///   channel took;
/// - it is dropped only for what `decode` gave for all of the data, or for want of a typed body;
/// - the task ends only where the channel was asked to take such a payload and refused it.
pub proof fn law_message_is_handled_as_decoded<B, S, M, W, E, F>(
    task: &mut SocketTask<B, S>,
    msg: M,
    decode: F,
    turn: IncomingTurn<E, W>,
) where M: MessagePayload, F: FnOnce(&B, &[u8]) -> Result<JSONPayload, E>
    requires
        call_ensures(
            SocketTask::<B, S>::on_websocket::<M, W, E, F>,
            (task, Some(Ok::<M, W>(msg)), decode),
            turn,
        ),
    ensures
        turn is Continue && turn->Continue_0 is Ignored <==> msg.data() is None,
        match turn {
            IncomingTurn::Continue(Handled::Ignored) => final(task).incoming_messages_tx.taken()
                == old(task).incoming_messages_tx.taken(),
            IncomingTurn::Continue(Handled::Delivered) => exists|body: B, bytes: &[u8], p: Payload|
                {
                    &&& old(task).schema.incoming.body == RequestBody::Typed(Some(body))
                    &&& msg.data() == Some(bytes@)
                    &&& #[trigger] call_ensures(decode, (&body, bytes), Ok(Some(p)))
                    &&& final(task).incoming_messages_tx.taken() == old(
                        task,
                    ).incoming_messages_tx.taken().push(p)
                    &&& call_ensures(
                        UnboundedSender::<Payload>::send,
                        (&old(task).incoming_messages_tx.sender(), p),
                        Ok(()),
                    )
                },
            IncomingTurn::Continue(Handled::Rejected(error)) => {
                &&& final(task).incoming_messages_tx.taken() == old(
                    task,
                ).incoming_messages_tx.taken()
                &&& match old(task).schema.incoming.body {
                    RequestBody::Typed(Some(body)) => exists|
                        bytes: &[u8],
                        decoded: Result<JSONPayload, E>,
                    |
                        {
                            &&& msg.data() == Some(bytes@)
                            &&& #[trigger] call_ensures(decode, (&body, bytes), decoded)
                            &&& match decoded {
                                Ok(Some(_)) => false,
                                Ok(None) => error == Error::<E>::InvalidArgument(
                                    Fault::MissingPayload,
                                ),
                                Err(reason) => error == Error::Schema(reason),
                            }
                        },
                    _ => error == Error::<E>::InvalidArgument(Fault::BodyType),
                }
            },
            IncomingTurn::Stop(StopReason::IncomingClosed(closed)) => exists|
                body: B,
                bytes: &[u8],
            |
                {
                    &&& old(task).schema.incoming.body == RequestBody::Typed(Some(body))
                    &&& msg.data() == Some(bytes@)
                    &&& #[trigger] call_ensures(decode, (&body, bytes), Ok(Some(closed.0)))
                    &&& final(task).incoming_messages_tx.taken() == old(
                        task,
                    ).incoming_messages_tx.taken()
                    &&& call_ensures(
                        UnboundedSender::<Payload>::send,
                        (&old(task).incoming_messages_tx.sender(), closed.0),
                        Err(SendError(closed.0)),
                    )
                },
            IncomingTurn::Stop(_) => false,
        },
{
}

/// A message whose data, of any length, a typed body can only decode as a payload is delivered as
/// that payload and nothing else, unless the channel was asked to take it and refused it.
pub proof fn law_accepted_is_delivered<B, S, M, W, E, F>(
    task: &mut SocketTask<B, S>,
    body: B,
    msg: M,
    decode: F,
    expected: Payload,
    turn: IncomingTurn<E, W>,
) where M: MessagePayload, F: FnOnce(&B, &[u8]) -> Result<JSONPayload, E>
    requires
        call_ensures(
            SocketTask::<B, S>::on_websocket::<M, W, E, F>,
            (task, Some(Ok::<M, W>(msg)), decode),
            turn,
        ),
        old(task).schema.incoming.body == RequestBody::Typed(Some(body)),
        msg.data() is Some,
        forall|bytes: &[u8], decoded: Result<JSONPayload, E>|
            msg.data() == Some(bytes@) && #[trigger] call_ensures(decode, (&body, bytes), decoded)
                ==> decoded == Ok::<JSONPayload, E>(Some(expected)),
    ensures
        match turn {
            IncomingTurn::Continue(handled) => {
                &&& handled is Delivered
                &&& final(task).incoming_messages_tx.taken() == old(
                    task,
                ).incoming_messages_tx.taken().push(expected)
            },
            IncomingTurn::Stop(StopReason::IncomingClosed(closed)) => {
                &&& closed.0 == expected
                &&& final(task).incoming_messages_tx.taken() == old(
                    task,
                ).incoming_messages_tx.taken()
                &&& call_ensures(
                    UnboundedSender::<Payload>::send,
                    (&old(task).incoming_messages_tx.sender(), expected),
                    Err(SendError(expected)),
                )
            },
            IncomingTurn::Stop(_) => false,
        },
{
}

/// A connection that is closed or cannot be read ends the task and hands nothing on.
pub proof fn law_lost_connection_ends<B, S, M, W, E, F>(
    task: &mut SocketTask<B, S>,
    lost: Option<W>,
    decode: F,
    turn: IncomingTurn<E, W>,
) where M: MessagePayload, F: FnOnce(&B, &[u8]) -> Result<JSONPayload, E>
    requires
        call_ensures(
            SocketTask::<B, S>::on_websocket::<M, W, E, F>,
            (
                task,
                match lost {
                    Some(error) => Some(Err::<M, W>(error)),
                    None => None,
                },
                decode,
            ),
            turn,
        ),
    ensures
        turn == IncomingTurn::<E, W>::Stop(
            match lost {
                Some(error) => StopReason::ReceiveFailed(error),
                None => StopReason::Closed,
            },
        ),
        final(task).incoming_messages_tx.taken() == old(task).incoming_messages_tx.taken(),
{
}

/// A message for the peer is encoded as its schema encodes it, whole: where the endpoint has a
/// body, `encode` was called on that body and the message, and what it gave is the result.
pub proof fn law_encoded_as_given<B, E, F>(
    schema: SocketSchema<B>,
    msg: Payload,
    encode: F,
    encoded: APIResult<Vec<u8>, E>,
) where F: FnOnce(&B, &JSONPayload) -> Result<Vec<u8>, E>
    requires
        call_ensures(
            SocketSchema::<B>::to_outgoing_message::<E, F>,
            (&schema, msg, encode),
            encoded,
        ),
    ensures
        match schema.outgoing.body {
            Some(body) => match encoded {
                Ok(bytes) => call_ensures(encode, (&body, &Some(msg)), Ok(bytes)),
                Err(Error::Schema(error)) => call_ensures(
                    encode,
                    (&body, &Some(msg)),
                    Err(error),
                ),
                Err(_) => false,
            },
            None => encoded == Err::<Vec<u8>, Error<E>>(Error::Internal(Cause::EmptyOutgoingBody)),
        },
{
}

/// Encoded bytes go out as text exactly where they are UTF-8, and then whole.
pub proof fn law_text_is_whole<E>(encoded: APIResult<Vec<u8>, E>, text: APIResult<String, E>)
    requires
        call_ensures(into_text::<E>, (encoded,), text),
    ensures
        match encoded {
            Ok(bytes) => match text {
                Ok(text) => encode_utf8(text@) == bytes@,
                Err(Error::InvalidUtf8(error)) => !valid_utf8(bytes@) && exists|raw: Vec<u8>|
                    raw@ == bytes@ && #[trigger] call_ensures(
                        String::from_utf8,
                        (raw,),
                        Err(error),
                    ),
                Err(_) => false,
            },
            Err(error) => text == Err::<String, Error<E>>(error),
        },
        encoded is Ok && valid_utf8(encoded->Ok_0@) ==> text is Ok,
{
}

/// The text for a message that a body can only encode as some UTF-8, of any length, is all of it.
pub proof fn law_outgoing_is_whole<B, E, F>(
    schema: SocketSchema<B>,
    body: B,
    msg: Payload,
    encode: F,
    expected: Seq<u8>,
    text: APIResult<String, E>,
) where F: FnOnce(&B, &JSONPayload) -> Result<Vec<u8>, E>
    requires
        call_ensures(
            Socket::<Payload, bool>::handle_outgoing_message::<B, E, F>,
            (&schema, msg, encode),
            text,
        ),
        schema.outgoing.body == Some(body),
        valid_utf8(expected),
        forall|encoded: Result<Vec<u8>, E>| #[trigger]
            call_ensures(encode, (&body, &Some(msg)), encoded) ==> encoded is Ok
                && encoded->Ok_0@ == expected,
    ensures
        text matches Ok(text) && encode_utf8(text@) == expected && encode_utf8(text@).len()
            == expected.len(),
{
}

/// The text that is written for a message is all that `encode` gave for the endpoint's body and the
/// message; a message is dropped only for what `encode` gave for it, or for want of a body; and the
/// connection is closed exactly where there are no more messages.
pub proof fn law_message_is_written_as_encoded<B, S, E, F>(
    task: SocketTask<B, S>,
    msg: Option<Payload>,
    encode: F,
    turn: OutgoingTurn<E>,
) where F: FnOnce(&B, &JSONPayload) -> Result<Vec<u8>, E>
    requires
        call_ensures(SocketTask::<B, S>::on_outgoing::<E, F>, (&task, msg, encode), turn),
    ensures
        turn is Close <==> msg is None,
        match turn {
            OutgoingTurn::Send(text) => exists|body: B, bytes: Vec<u8>|
                {
                    &&& task.schema.outgoing.body == Some(body)
                    &&& #[trigger] call_ensures(encode, (&body, &msg), Ok(bytes))
                    &&& encode_utf8(text@) == bytes@
                },
            OutgoingTurn::Skip(error) => match task.schema.outgoing.body {
                Some(body) => exists|encoded: Result<Vec<u8>, E>| #[trigger]
                    call_ensures(encode, (&body, &msg), encoded) && match encoded {
                        Ok(bytes) => {
                            &&& !valid_utf8(bytes@)
                            &&& error matches Error::InvalidUtf8(reason)
                            &&& exists|raw: Vec<u8>|
                                raw@ == bytes@ && #[trigger] call_ensures(
                                    String::from_utf8,
                                    (raw,),
                                    Err(reason),
                                )
                        },
                        Err(reason) => error == Error::Schema(reason),
                    },
                None => error == Error::<E>::Internal(Cause::EmptyOutgoingBody),
            },
            OutgoingTurn::Close => true,
        },
{
}

/// A message that a body can only encode as some UTF-8, of any length, is written as one text that
/// is all of it.
pub proof fn law_encodable_is_written<B, S, E, F>(
    task: SocketTask<B, S>,
    body: B,
    msg: Payload,
    encode: F,
    expected: Seq<u8>,
    turn: OutgoingTurn<E>,
) where F: FnOnce(&B, &JSONPayload) -> Result<Vec<u8>, E>
    requires
        call_ensures(SocketTask::<B, S>::on_outgoing::<E, F>, (&task, Some(msg), encode), turn),
        task.schema.outgoing.body == Some(body),
        valid_utf8(expected),
        forall|encoded: Result<Vec<u8>, E>| #[trigger]
            call_ensures(encode, (&body, &Some(msg)), encoded) ==> encoded is Ok
                && encoded->Ok_0@ == expected,
    ensures
        turn matches OutgoingTurn::Send(text) && encode_utf8(text@) == expected && encode_utf8(
            text@,
        ).len() == expected.len(),
{
}

/// A request that opens a stream, names a request schema and still has its connection is upgraded,
/// whatever else it holds: with that connection, its direction, its first request schema and its
/// response schema, and with a channel of its own for the response. The connection is gone then.
pub proof fn law_stream_is_upgraded<B, U, E>(
    stream: StreamRequestData<B>,
    websocket: &mut Option<U>,
    upgrade: APIResult<Upgrade<B, U, E>, E>,
)
    requires
        call_ensures(
            upgrade_request::<B, U, E>,
            (&RequestData::Stream(stream), websocket),
            upgrade,
        ),
        stream.endpoint.request@.len() > 0,
        *old(websocket) is Some,
    ensures
        upgrade matches Ok(upgrade) && {
            &&& *old(websocket) == Some(upgrade.websocket)
            &&& upgrade.direction == stream.direction
            &&& upgrade.incoming == stream.endpoint.request@[0]
            &&& upgrade.outgoing == stream.endpoint.response
            &&& call_ensures(
                unbounded_channel::<APIResult<JSONPayload, E>>,
                (),
                (upgrade.response_tx, upgrade.response_rx),
            )
        },
        *final(websocket) is None,
{
}

/// Any other request is refused, for the first of the reasons that there are, and keeps what it has
/// of a connection.
pub proof fn law_other_request_is_refused<B, U, E>(
    data: RequestData<B>,
    websocket: &mut Option<U>,
    upgrade: APIResult<Upgrade<B, U, E>, E>,
)
    requires
        call_ensures(upgrade_request::<B, U, E>, (&data, websocket), upgrade),
        data matches RequestData::Stream(stream) ==> stream.endpoint.request@.len() == 0 || *old(
            websocket,
        ) is None,
    ensures
        upgrade == Err::<Upgrade<B, U, E>, Error<E>>(
            Error::Internal(
                match data {
                    RequestData::Other => Cause::WrongRequestData,
                    RequestData::Stream(stream) => if stream.endpoint.request@.len() == 0 {
                        Cause::NoRequestSchema
                    } else {
                        Cause::AlreadyUpgraded
                    },
                },
            ),
        ),
        *final(websocket) == *old(websocket),
{
}

/// The channel of the response has taken nothing when an upgrade hands it out: its sending end
/// comes from an owner through which nothing was sent.
pub proof fn law_no_response_yet<B, U, E>(
    data: RequestData<B>,
    websocket: &mut Option<U>,
    upgrade: Upgrade<B, U, E>,
) -> (owner: Outbox<APIResult<JSONPayload, E>>)
    requires
        call_ensures(upgrade_request::<B, U, E>, (&data, websocket), Ok(upgrade)),
    ensures
        owner.taken().len() == 0,
        owner.sender() == upgrade.response_tx,
        call_ensures(
            Outbox::<APIResult<JSONPayload, E>>::into_sender,
            (owner,),
            upgrade.response_tx,
        ),
        call_ensures(
            unbounded_channel::<APIResult<JSONPayload, E>>,
            (),
            (upgrade.response_tx, upgrade.response_rx),
        ),
{
    choose|owner: Outbox<APIResult<JSONPayload, E>>| #[trigger]
        call_ensures(
            Outbox::<APIResult<JSONPayload, E>>::into_sender,
            (owner,),
            upgrade.response_tx,
        ) && owner.taken() == Seq::<APIResult<JSONPayload, E>>::empty()
}

/// What is sent first on a channel that has taken nothing is what comes out of it first, whatever
/// follows.
pub proof fn law_first_sent_comes_first<T>(first: T, steps: Seq<DeliveryStep<T>>)
    ensures
        ({
            let later = Delivery::start().after(DeliveryStep::Hear(Some(first))).run(steps);
            &&& later.received.len() > 0 ==> later.received[0] == first
            &&& later.received.len() == 0 ==> later.queued.len() > 0 && later.queued[0] == first
        }),
    decreases steps.len(),
{
    if steps.len() > 0 {
        law_first_sent_comes_first(first, steps.drop_last());
    }
}

/// The response of an endpoint is put into the sink's channel as it is, and nothing is where it has
/// no content.
pub proof fn law_response_is_sent<S, E>(
    sink: Sink<Payload, S>,
    response: Option<APIResult<JSONPayload, E>>,
    responded: Responded<E>,
)
    requires
        call_ensures(Sink::<Payload, S>::respond::<E>, (sink, response), responded),
    ensures
        match responded {
            Responded::Sent => exists|payload: Payload|
                response == Some(Ok::<JSONPayload, Error<E>>(Some(payload)))
                    && #[trigger] call_ensures(
                    UnboundedSender::<Payload>::send,
                    (&sink.outgoing(), payload),
                    Ok(()),
                ),
            Responded::SinkClosed(closed) => {
                &&& response == Some(Ok::<JSONPayload, Error<E>>(Some(closed.0)))
                &&& call_ensures(
                    UnboundedSender::<Payload>::send,
                    (&sink.outgoing(), closed.0),
                    Err(SendError(closed.0)),
                )
            },
            Responded::Empty => response == Some(Ok::<JSONPayload, Error<E>>(None)),
            Responded::Failed(error) => response == Some(Err::<JSONPayload, Error<E>>(error)),
            Responded::Missing => response is None,
        },
{
}

/// A message that is sent on a socket is put into its channel, and is handed back only where the
/// channel was asked to take it and refused it.
pub proof fn law_socket_sends<T, S>(
    socket: Socket<T, S>,
    msg: T,
    sent: Result<(), ChannelClosed<T>>,
)
    requires
        call_ensures(Socket::<T, S>::send, (&socket, msg), sent),
    ensures
        match sent {
            Ok(()) => call_ensures(
                UnboundedSender::<T>::send,
                (&socket.outgoing(), msg),
                Ok(()),
            ),
            Err(closed) => closed.0 == msg && call_ensures(
                UnboundedSender::<T>::send,
                (&socket.outgoing(), msg),
                Err(SendError(msg)),
            ),
        },
{
}

/// The same of the sending half of a socket.
pub proof fn law_sink_sends<T, S>(sink: Sink<T, S>, msg: T, sent: Result<(), ChannelClosed<T>>)
    requires
        call_ensures(Sink::<T, S>::send, (&sink, msg), sent),
    ensures
        match sent {
            Ok(()) => call_ensures(UnboundedSender::<T>::send, (&sink.outgoing(), msg), Ok(())),
            Err(closed) => closed.0 == msg && call_ensures(
                UnboundedSender::<T>::send,
                (&sink.outgoing(), msg),
                Err(SendError(msg)),
            ),
        },
{
}

/// Closing a socket, or its sending half, signals its task.
pub proof fn law_close_signals<T>(socket: Socket<T, bool>, sink: Sink<T, bool>)
    requires
        call_ensures(Socket::<T, bool>::close, (&socket,), ()),
        call_ensures(Sink::<T, bool>::close, (&sink,), ()),
    ensures
        exists|outcome: Result<(), watch::error::SendError<bool>>| #[trigger]
            call_ensures(watch::Sender::<bool>::send, (&socket.signal(), true), outcome),
        exists|outcome: Result<(), watch::error::SendError<bool>>| #[trigger]
            call_ensures(watch::Sender::<bool>::send, (&sink.signal(), true), outcome),
{
}

/// A socket and its task are made on three channels: one for each direction, and one for the call
/// to shut down, on which nothing is called for yet. The messages of the peer start with none.
pub proof fn law_socket_is_connected<B>(
    incoming: Arc<Request<B>>,
    outgoing: Arc<Response<B>>,
    socket: Socket,
    task: SocketTask<B>,
)
    requires
        call_ensures(Socket::<Payload, bool>::new::<B>, (incoming, outgoing), (socket, task)),
    ensures
        task.schema.incoming == incoming,
        task.schema.outgoing == outgoing,
        call_ensures(
            unbounded_channel::<Payload>,
            (),
            (socket.outgoing(), task.outgoing_messages_rx),
        ),
        exists|rx: UnboundedReceiver<Payload>| #[trigger]
            call_ensures(
                unbounded_channel::<Payload>,
                (),
                (task.incoming_messages_tx.sender(), rx),
            ) && call_ensures(
                <Mutex<UnboundedReceiver<Payload>> as From<UnboundedReceiver<Payload>>>::from,
                (rx,),
                socket.incoming(),
            ),
        task.incoming_messages_tx.taken().len() == 0,
        call_ensures(watch::channel::<bool>, (false,), (socket.signal(), task.shutdown_watch)),
{
}

/// What a client sends succeeds only where it is UTF-8 and a channel was asked to take the text of
/// all of its bytes and took it; it fails as text exactly where it is not UTF-8; and it is handed
/// back only where the channel refused that text.
pub proof fn law_client_sends_text<S>(
    client: WebSocketClient<tungstenite::Message, S>,
    msg: Bytes,
    sent: Result<(), SendFailure>,
)
    requires
        call_ensures(
            WebSocketClient::<tungstenite::Message, S>::send::<Bytes>,
            (&client, msg),
            sent,
        ),
    ensures
        valid_utf8(buffered(msg)) <==> !(sent is Err && sent->Err_0 is InvalidUtf8),
        match sent {
            Ok(()) => exists|text: String| #[trigger]
                encode_utf8(text@) == buffered(msg) && call_ensures(
                    UnboundedSender::<tungstenite::Message>::send,
                    (&client.outgoing(), tungstenite::Message::Text(text)),
                    Ok(()),
                ),
            Err(SendFailure::Closed(closed)) => {
                &&& closed.0 matches tungstenite::Message::Text(text)
                &&& encode_utf8(text@) == buffered(msg)
                &&& call_ensures(
                    UnboundedSender::<tungstenite::Message>::send,
                    (&client.outgoing(), closed.0),
                    Err(SendError(closed.0)),
                )
            },
            Err(SendFailure::InvalidUtf8(error)) => exists|raw: Vec<u8>|
                raw@ == buffered(msg) && #[trigger] call_ensures(
                    String::from_utf8,
                    (raw,),
                    Err(error),
                ),
        },
{
}

/// Sending bytes adds exactly one message to what the channel has taken, the text of all of the
/// bytes, where it succeeds, and adds none where it fails.
pub proof fn law_one_message_is_sent(
    courier: &mut Courier<'_, tungstenite::Message>,
    msg: Bytes,
    sent: Result<(), SendFailure>,
)
    requires
        call_ensures(post::<tungstenite::Message, Bytes>, (courier, msg), sent),
    ensures
        sent is Ok ==> {
            &&& final(courier).taken().len() == old(courier).taken().len() + 1
            &&& final(courier).taken().drop_last() == old(courier).taken()
            &&& final(courier).taken().last() matches tungstenite::Message::Text(text)
            &&& encode_utf8(text@) == buffered(msg)
        },
        sent is Err ==> final(courier).taken() == old(courier).taken(),
{
    if sent is Ok {
        assert(final(courier).taken().drop_last() =~= old(courier).taken());
    }
}

/// What is sent twice is taken twice, and what is sent once is taken once: two calls that succeed
/// add two messages, in the order of the calls.
pub proof fn law_messages_are_sent_in_order(
    first: &mut Courier<'_, tungstenite::Message>,
    second: &mut Courier<'_, tungstenite::Message>,
    msgs: (Bytes, Bytes),
)
    requires
        call_ensures(post::<tungstenite::Message, Bytes>, (first, msgs.0), Ok(())),
        call_ensures(post::<tungstenite::Message, Bytes>, (second, msgs.1), Ok(())),
        *old(second) == *final(first),
    ensures
        final(second).taken().len() == old(first).taken().len() + 2,
        final(second).taken().take(old(first).taken().len() as int) == old(first).taken(),
        final(second).taken()[old(first).taken().len() as int].data() == Some(buffered(msgs.0)),
        final(second).taken()[old(first).taken().len() as int + 1].data() == Some(buffered(msgs.1)),
{
    assert(final(second).taken().take(old(first).taken().len() as int) =~= old(first).taken());
}

/// Every message that is read, whatever its kind and length, is put into the channel and nothing
/// else is. A turn is refused only where the channel was asked to take that very message and
/// refused it. An error in reading and the end put nothing into the channel.
pub proof fn law_read_is_forwarded<W>(
    task: &mut ReceiveTask,
    received: Option<Result<tungstenite::Message, W>>,
    turn: ReceiveTurn<W>,
)
    requires
        call_ensures(ReceiveTask::on_websocket::<W>, (task, received), turn),
    ensures
        match received {
            Some(Ok(msg)) => match turn {
                ReceiveTurn::Forwarded => {
                    &&& final(task).tx.taken() == old(task).tx.taken().push(msg)
                    &&& call_ensures(
                        UnboundedSender::<tungstenite::Message>::send,
                        (&old(task).tx.sender(), msg),
                        Ok(()),
                    )
                },
                ReceiveTurn::Refused(closed) => {
                    &&& closed.0 == msg
                    &&& final(task).tx.taken() == old(task).tx.taken()
                    &&& call_ensures(
                        UnboundedSender::<tungstenite::Message>::send,
                        (&old(task).tx.sender(), msg),
                        Err(SendError(msg)),
                    )
                },
                _ => false,
            },
            Some(Err(error)) => turn == ReceiveTurn::Failed(error) && final(task).tx.taken() == old(
                task,
            ).tx.taken(),
            None => turn is Stop && final(task).tx.taken() == old(task).tx.taken(),
        },
{
}

/// While the channel refuses nothing, every message that is read is in what it has taken.
pub proof fn law_open_channel_takes_all<W>(
    task: &mut ReceiveTask,
    msg: tungstenite::Message,
    turn: ReceiveTurn<W>,
)
    requires
        call_ensures(
            ReceiveTask::on_websocket::<W>,
            (task, Some(Ok::<tungstenite::Message, W>(msg))),
            turn,
        ),
        forall|refused: SendError<tungstenite::Message>|
            !(#[trigger] call_ensures(
                UnboundedSender::<tungstenite::Message>::send,
                (&old(task).tx.sender(), msg),
                Err(refused),
            )),
    ensures
        turn is Forwarded,
        final(task).tx.taken() == old(task).tx.taken().push(msg),
{
}

/// The same of the messages that a server reads: while the channel refuses nothing, a message does
/// not end the task.
pub proof fn law_open_channel_goes_on<B, S, M, W, E, F>(
    task: &mut SocketTask<B, S>,
    msg: M,
    decode: F,
    turn: IncomingTurn<E, W>,
) where M: MessagePayload, F: FnOnce(&B, &[u8]) -> Result<JSONPayload, E>
    requires
        call_ensures(
            SocketTask::<B, S>::on_websocket::<M, W, E, F>,
            (task, Some(Ok::<M, W>(msg)), decode),
            turn,
        ),
        forall|payload: Payload, refused: SendError<Payload>|
            !(#[trigger] call_ensures(
                UnboundedSender::<Payload>::send,
                (&old(task).incoming_messages_tx.sender(), payload),
                Err(refused),
            )),
    ensures
        turn is Continue,
{
    law_message_is_handled_as_decoded(task, msg, decode, turn);
}

/// What a client receives is the whole data of a text or binary message of any length; every other
/// message is passed over, and the end is received as such.
pub proof fn law_data_is_received(msg: Option<tungstenite::Message>, received: Received)
    requires
        call_ensures(WebSocketClient::<tungstenite::Message, bool>::on_received, (msg,), received),
    ensures
        match msg {
            Some(tungstenite::Message::Text(text)) => received matches Received::Data(data)
                && buffered(data) == encode_utf8(text@),
            Some(tungstenite::Message::Binary(bytes)) => received matches Received::Data(data)
                && buffered(data) == bytes@,
            Some(other) => received == Received::Skip(other),
            None => received is End,
        },
{
}

/// A client writes every message that it takes as it is, and closes the connection exactly where
/// there are no more.
pub proof fn law_taken_is_written(
    task: SendTask,
    msg: Option<tungstenite::Message>,
    turn: SendTurn,
)
    requires
        call_ensures(SendTask::on_message, (&task, msg), turn),
    ensures
        match msg {
            Some(msg) => turn == SendTurn::Send(msg),
            None => turn is Close,
        },
{
}

/// Closing a client signals its writing task, and fails only where the signal was refused.
pub proof fn law_client_close_signals<T>(
    client: WebSocketClient<T, bool>,
    outcome: Result<(), ChannelClosed<bool>>,
)
    requires
        call_ensures(WebSocketClient::<T, bool>::close, (&client,), outcome),
    ensures
        match outcome {
            Ok(()) => call_ensures(watch::Sender::<bool>::send, (&client.signal(), true), Ok(())),
            Err(closed) => closed.0 && call_ensures(
                watch::Sender::<bool>::send,
                (&client.signal(), true),
                Err(watch::error::SendError(true)),
            ),
        },
{
}

} // verus!
