//! The server side of a stream.
use std::sync::Arc;
use tokio::sync::mpsc::{unbounded_channel, UnboundedReceiver, UnboundedSender};
use tokio::sync::{watch, Mutex};
use vstd::prelude::*;
use vstd::utf8::encode_utf8;

use crate::boundary::Payload;
use crate::channel::{
    connected, feeds, given_away, guards, send_on, sends, signal_on, signalled, watches, Outbox,
};
use crate::delivery::{
    lemma_messages_empty, lemma_messages_push, log_after, messages, Delivery, DeliveryStep,
};
use crate::drain::{
    law_close_after_drain, law_shutdown_completes, law_shutdown_refuses, step_of, Session, Step,
};
use crate::error::{APIResult, Cause, ChannelClosed, Error};
use crate::message::MessagePayload;
use crate::model::{RequestData, StreamDirection};
use crate::schema::{
    into_text, is_text, payload_in, sendable, JSONPayload, Request, Response, SocketSchema,
};

verus! {

/// The websocket subprotocol that a stream speaks.
pub const PROTOCOL: &'static str = "encore-ws";

/// What an endpoint may respond with. Where no more is known of `E`, a response can be passed on
/// and cannot be made up.
pub trait Respond {
    /// The type of a response.
    type Response;
}

impl<E> Respond for E {
    type Response = APIResult<JSONPayload, E>;
}

/// What a request is upgraded with.
#[derive(Debug)]
#[verifier::reject_recursive_types(E)]
pub struct Upgrade<B, U, E: Respond> {
    /// The connection to upgrade.
    pub websocket: U,
    /// Which way the messages go.
    pub direction: StreamDirection,
    /// What the peer sends.
    pub incoming: Arc<Request<B>>,
    /// What the peer is sent.
    pub outgoing: Arc<Response<B>>,
    /// Where the endpoint puts its response.
    pub response_tx: UnboundedSender<<E as Respond>::Response>,
    /// Where the response of the endpoint comes out.
    pub response_rx: UnboundedReceiver<<E as Respond>::Response>,
}

/// Why a request cannot be upgraded, given what is left of its connection; `None` if it can be.
pub open spec fn upgrade_fault<B, U>(data: RequestData<B>, websocket: Option<U>) -> Option<Cause> {
    match data {
        RequestData::Stream(stream) => if stream.endpoint.request@.len() == 0 {
            Some(Cause::NoRequestSchema)
        } else if websocket is None {
            Some(Cause::AlreadyUpgraded)
        } else {
            None
        },
        RequestData::Other => Some(Cause::WrongRequestData),
    }
}

/// What an upgrade leaves of the connection of a request.
pub open spec fn upgrade_leaves<B, U>(data: RequestData<B>, websocket: Option<U>) -> Option<U> {
    if upgrade_fault(data, websocket) is None {
        None
    } else {
        websocket
    }
}

/// Takes the connection of a request that opens a stream, with what serving it needs. Nothing has
/// been sent on the channel of the response.
pub fn upgrade_request<B, U, E: Respond>(
    data: &RequestData<B>,
    websocket: &mut Option<U>,
) -> (upgrade: APIResult<Upgrade<B, U, E>, E>)
    ensures
        *final(websocket) == upgrade_leaves(*data, *old(websocket)),
        upgrade_fault(*data, *old(websocket)) matches Some(cause) ==> upgrade == Err::<
            Upgrade<B, U, E>,
            Error<E>,
        >(Error::Internal(cause)),
        upgrade_fault(*data, *old(websocket)) is None ==> {
            &&& upgrade matches Ok(upgrade)
            &&& data matches RequestData::Stream(stream)
            &&& *old(websocket) == Some(upgrade.websocket)
            &&& upgrade.direction == stream.direction
            &&& upgrade.incoming == stream.endpoint.request@[0]
            &&& upgrade.outgoing == stream.endpoint.response
            &&& connected(upgrade.response_tx, upgrade.response_rx)
            &&& given_away(upgrade.response_tx, Seq::empty())
        },
{
    let stream = match data {
        RequestData::Stream(stream) => stream,
        RequestData::Other => return Err(Error::Internal(Cause::WrongRequestData)),
    };
    let incoming = match stream.endpoint.request.first() {
        Some(request) => Arc::clone(request),
        None => return Err(Error::Internal(Cause::NoRequestSchema)),
    };
    let outgoing = Arc::clone(&stream.endpoint.response);
    let websocket = match websocket.take() {
        Some(websocket) => websocket,
        None => return Err(Error::Internal(Cause::AlreadyUpgraded)),
    };
    let (response_tx, response_rx) = unbounded_channel();
    let responses = Outbox::new(response_tx);
    let ghost unused = responses;
    let response_tx = responses.into_sender();
    assert(call_ensures(Outbox::into_sender, (unused,), response_tx));
    Ok(
        Upgrade {
            websocket,
            direction: stream.direction,
            incoming,
            outgoing,
            response_tx,
            response_rx,
        },
    )
}

/// A connection is upgraded at most once: after an upgrade that succeeded, every other one of that
/// request is refused.
pub proof fn law_upgrade_once<B, U>(data: RequestData<B>, websocket: Option<U>)
    requires
        upgrade_fault(data, websocket) is None,
    ensures
        upgrade_fault(data, upgrade_leaves(data, websocket)) == Some(Cause::AlreadyUpgraded),
{
}

/// An upgrade that is refused takes nothing: it is refused again for the same reason.
pub proof fn law_refused_upgrade_keeps<B, U>(data: RequestData<B>, websocket: Option<U>)
    requires
        upgrade_fault(data, websocket) is Some,
    ensures
        upgrade_leaves(data, websocket) == websocket,
        upgrade_fault(data, upgrade_leaves(data, websocket)) == upgrade_fault(data, websocket),
{
}

/// The server's end of a stream with both directions, which exchanges messages `T` and calls on its
/// task by signals `S`.
#[derive(Debug)]
#[verifier::reject_recursive_types(T)]
#[verifier::reject_recursive_types(S)]
pub struct Socket<T = Payload, S = bool> {
    outgoing_message_tx: UnboundedSender<T>,
    incoming_message_rx: Mutex<UnboundedReceiver<T>>,
    shutdown: watch::Sender<S>,
}

/// The half of a socket that sends.
#[derive(Debug)]
#[verifier::reject_recursive_types(T)]
#[verifier::reject_recursive_types(S)]
pub struct Sink<T = Payload, S = bool> {
    tx: UnboundedSender<T>,
    shutdown: watch::Sender<S>,
}

/// The half of a socket that receives.
#[derive(Debug)]
#[verifier::reject_recursive_types(T)]
pub struct Stream<T = Payload> {
    rx: Mutex<UnboundedReceiver<T>>,
}

/// What an endpoint is handed to exchange messages with the peer.
#[derive(Debug)]
#[verifier::reject_recursive_types(T)]
#[verifier::reject_recursive_types(S)]
pub enum StreamMessagePayload<T = Payload, S = bool> {
    /// Both directions.
    InOut(Socket<T, S>),
    /// Only what goes to the peer.
    Out(Sink<T, S>),
    /// Only what comes from the peer.
    In(Stream<T>),
}

/// What is served by a task that can be called on to shut down. Where no more is known, the signal
/// for that cannot be made up.
pub trait Stoppable {
    /// The type of the signal.
    type Signal;

    /// What is signalled at first.
    spec fn idle() -> Self::Signal;

    /// Makes the channel of the signal.
    fn signal_channel() -> (made: (watch::Sender<Self::Signal>, watch::Receiver<Self::Signal>))
        ensures
            watches(made.0, made.1, Self::idle()),
    ;
}

impl<B> Stoppable for B {
    type Signal = bool;

    open spec fn idle() -> bool {
        false
    }

    fn signal_channel() -> (made: (watch::Sender<bool>, watch::Receiver<bool>)) {
        watch::channel(false)
    }
}

/// The other ends of a socket: what the task that serves the connection holds.
#[verifier::reject_recursive_types(S)]
pub struct SocketTask<B, S = bool> {
    /// How messages are encoded and decoded.
    pub schema: SocketSchema<B>,
    /// Where the messages of the peer go.
    pub incoming_messages_tx: Outbox<Payload>,
    /// Where the messages for the peer come out.
    pub outgoing_messages_rx: UnboundedReceiver<Payload>,
    /// Where the call to shut down comes out.
    pub shutdown_watch: watch::Receiver<S>,
}

/// What became of a message of the peer.
#[derive(Debug)]
pub enum Handled<E> {
    /// It carries no data.
    Ignored,
    /// Its payload went to the socket.
    Delivered,
    /// It could not be read, and is dropped.
    Rejected(Error<E>),
}

/// Why a task ends without closing the connection.
#[derive(Debug)]
pub enum StopReason<W> {
    /// The connection is closed.
    Closed,
    /// Reading from the connection failed.
    ReceiveFailed(W),
    /// Nobody receives the messages of the peer any more.
    IncomingClosed(ChannelClosed<Payload>),
}

/// What a task does after the connection was heard from.
#[derive(Debug)]
pub enum IncomingTurn<E, W> {
    /// It goes on.
    Continue(Handled<E>),
    /// It ends.
    Stop(StopReason<W>),
}

/// What a task does after the socket was heard from.
#[derive(Debug)]
pub enum OutgoingTurn<E> {
    /// It sends this text to the peer, and goes on whether that succeeds or not.
    Send(String),
    /// It drops a message that could not be encoded, and goes on.
    Skip(Error<E>),
    /// It closes the connection and ends.
    Close,
}

/// What became of the response of an endpoint that only takes messages in.
#[derive(Debug)]
pub enum Responded<E> {
    /// It is queued for the peer.
    Sent,
    /// The task takes no more messages, so it is lost.
    SinkClosed(ChannelClosed<Payload>),
    /// The endpoint responded without content.
    Empty,
    /// The endpoint responded with an error.
    Failed(Error<E>),
    /// The endpoint ended without a response.
    Missing,
}

impl<E, W> IncomingTurn<E, W> {
    /// Which step of the messages for the peer the turn is, if it is one.
    pub open spec fn step(self) -> Option<Step<Payload>> {
        match self {
            IncomingTurn::Continue(_) => None,
            IncomingTurn::Stop(_) => Some(Step::Lose),
        }
    }

    /// Which step of the messages of the peer the turn is, where `read` is what was read.
    pub open spec fn delivery(self, read: Option<APIResult<Payload, E>>) -> DeliveryStep<Payload> {
        match self {
            IncomingTurn::Continue(_) => DeliveryStep::Hear(payload_in(read)),
            IncomingTurn::Stop(_) => DeliveryStep::End,
        }
    }
}

impl<E> OutgoingTurn<E> {
    /// Which step of the messages for the peer the turn is.
    pub open spec fn step(self) -> Step<Payload> {
        match self {
            OutgoingTurn::Send(_) | OutgoingTurn::Skip(_) => Step::Handle,
            OutgoingTurn::Close => Step::Close,
        }
    }

    /// The text that is written in the turn, if there is one.
    pub open spec fn text(self) -> Option<String> {
        match self {
            OutgoingTurn::Send(text) => Some(text),
            OutgoingTurn::Skip(_) | OutgoingTurn::Close => None,
        }
    }
}

/// The texts that are written in turns, in order.
pub open spec fn written<E>(turns: Seq<OutgoingTurn<E>>) -> Seq<String> {
    messages(turns.map_values(|turn: OutgoingTurn<E>| turn.text()))
}

impl<E> Responded<E> {
    /// What is queued for the peer with this outcome of a response.
    pub open spec fn queued(self, response: Option<APIResult<JSONPayload, E>>) -> Option<Payload> {
        match (self, response) {
            (Responded::Sent, Some(Ok(Some(payload)))) => Some(payload),
            _ => None,
        }
    }
}

/// Whether `handled` is what a message that was read as this may come to: a payload is sent on
/// `incoming`, and nothing else is. Only a closed channel is an error. `before` and `after` are
/// what the channel has taken before and after.
pub open spec fn hands_on<E>(
    incoming: UnboundedSender<Payload>,
    read: Option<APIResult<Payload, E>>,
    handled: Result<Handled<E>, ChannelClosed<Payload>>,
    before: Seq<Payload>,
    after: Seq<Payload>,
) -> bool {
    &&& match (read, handled) {
        (None, Ok(Handled::Ignored)) => true,
        (Some(Err(error)), Ok(Handled::Rejected(reason))) => reason == error,
        (Some(Ok(payload)), Ok(Handled::Delivered)) => sends(incoming, payload, Ok(())),
        (Some(Ok(payload)), Err(closed)) => sends(incoming, payload, Err(closed)),
        _ => false,
    }
    &&& after == match handled {
        Ok(_) => log_after(before, payload_in(read)),
        Err(_) => before,
    }
}

/// Whether `handled` is what a message with this data may come to: it is read by the schema, and
/// what was read is handed on.
pub open spec fn handles<B, E, F>(
    schema: SocketSchema<B>,
    incoming: UnboundedSender<Payload>,
    decode: F,
    data: Option<Seq<u8>>,
    handled: Result<Handled<E>, ChannelClosed<Payload>>,
    before: Seq<Payload>,
    after: Seq<Payload>,
) -> bool where F: FnOnce(&B, &[u8]) -> Result<JSONPayload, E> {
    exists|read: Option<APIResult<Payload, E>>| #[trigger]
        schema.reads(decode, data, read) && hands_on(incoming, read, handled, before, after)
}

/// Whether `turn` is what a task may do about what came from the connection.
pub open spec fn hears<B, M, W, E, F>(
    schema: SocketSchema<B>,
    incoming: UnboundedSender<Payload>,
    decode: F,
    received: Option<Result<M, W>>,
    turn: IncomingTurn<E, W>,
    before: Seq<Payload>,
    after: Seq<Payload>,
) -> bool where M: MessagePayload, F: FnOnce(&B, &[u8]) -> Result<JSONPayload, E> {
    match (received, turn) {
        (None, IncomingTurn::Stop(StopReason::Closed)) => after == before,
        (Some(Err(error)), IncomingTurn::Stop(StopReason::ReceiveFailed(reason))) => {
            reason == error && after == before
        },
        (Some(Ok(msg)), IncomingTurn::Continue(handled)) => handles(
            schema,
            incoming,
            decode,
            msg.data(),
            Ok(handled),
            before,
            after,
        ),
        (Some(Ok(msg)), IncomingTurn::Stop(StopReason::IncomingClosed(closed))) => handles::<
            B,
            E,
            F,
        >(schema, incoming, decode, msg.data(), Err(closed), before, after),
        _ => false,
    }
}

/// A message that cannot be read does not end a stream: whatever is wrong with it, it is dropped,
/// and nothing is handed on.
pub proof fn law_unreadable_message_goes_on<B, E, F>(
    schema: SocketSchema<B>,
    incoming: UnboundedSender<Payload>,
    decode: F,
    data: Option<Seq<u8>>,
    handled: Result<Handled<E>, ChannelClosed<Payload>>,
    before: Seq<Payload>,
    after: Seq<Payload>,
) where F: FnOnce(&B, &[u8]) -> Result<JSONPayload, E>
    requires
        handles(schema, incoming, decode, data, handled, before, after),
        forall|read: Option<APIResult<Payload, E>>| #[trigger]
            schema.reads(decode, data, read) ==> payload_in(read) is None,
    ensures
        handled is Ok,
        handled->Ok_0 !is Delivered,
        after == before,
{
}

/// A stream hands on what was read as it is, and ends only where nobody receives it.
pub proof fn law_readable_message_is_sent<B, E, F>(
    schema: SocketSchema<B>,
    incoming: UnboundedSender<Payload>,
    decode: F,
    data: Seq<u8>,
    payload: Payload,
    handled: Result<Handled<E>, ChannelClosed<Payload>>,
    before: Seq<Payload>,
    after: Seq<Payload>,
) where F: FnOnce(&B, &[u8]) -> Result<JSONPayload, E>
    requires
        handles(schema, incoming, decode, Some(data), handled, before, after),
        forall|read: Option<APIResult<Payload, E>>| #[trigger]
            schema.reads(decode, Some(data), read) ==> payload_in(read) == Some(payload),
    ensures
        match handled {
            Ok(handled) => {
                &&& handled is Delivered
                &&& sends(incoming, payload, Ok(()))
                &&& after == before.push(payload)
            },
            Err(closed) => sends(incoming, payload, Err(closed)) && after == before,
        },
{
}

/// A turn of a task is the step of its delivery that [`IncomingTurn::delivery`] names: what the
/// channel has taken after the turn is what it has taken after the step.
pub proof fn law_turn_is_step<B, M, W, E, F>(
    delivery: Delivery<Payload>,
    schema: SocketSchema<B>,
    incoming: UnboundedSender<Payload>,
    decode: F,
    received: Option<Result<M, W>>,
    turn: IncomingTurn<E, W>,
    after: Seq<Payload>,
) -> (read: Option<APIResult<Payload, E>>) where
    M: MessagePayload,
    F: FnOnce(&B, &[u8]) -> Result<JSONPayload, E>,

    requires
        !delivery.ended,
        hears(schema, incoming, decode, received, turn, delivery.delivered, after),
    ensures
        delivery.after(turn.delivery(read)).delivered == after,
        received matches Some(Ok(msg)) ==> schema.reads(decode, msg.data(), read),
{
    match received {
        Some(Ok(msg)) => {
            let handled = match turn {
                IncomingTurn::Continue(handled) => Ok(handled),
                IncomingTurn::Stop(StopReason::IncomingClosed(closed)) => Err(closed),
                IncomingTurn::Stop(_) => arbitrary(),
            };
            choose|read: Option<APIResult<Payload, E>>| #[trigger]
                schema.reads(decode, msg.data(), read) && hands_on(
                    incoming,
                    read,
                    handled,
                    delivery.delivered,
                    after,
                )
        },
        _ => None,
    }
}

/// A task hands on exactly the payloads of the messages that it could read, in the order in which
/// the messages came: `logs` is what the channel has taken before, between and after the messages.
pub proof fn law_hands_on_what_it_read<B, E, F>(
    schema: SocketSchema<B>,
    incoming: UnboundedSender<Payload>,
    decodes: Seq<F>,
    data: Seq<Option<Seq<u8>>>,
    handled: Seq<Handled<E>>,
    logs: Seq<Seq<Payload>>,
) -> (reads: Seq<Option<APIResult<Payload, E>>>) where
    F: FnOnce(&B, &[u8]) -> Result<JSONPayload, E>,

    requires
        decodes.len() == data.len(),
        handled.len() == data.len(),
        logs.len() == data.len() + 1,
        logs[0] == Seq::<Payload>::empty(),
        forall|i: int|
            0 <= i < data.len() ==> handles(
                schema,
                incoming,
                decodes[i],
                #[trigger] data[i],
                Ok(handled[i]),
                logs[i],
                logs[i + 1],
            ),
    ensures
        reads.len() == data.len(),
        forall|i: int|
            0 <= i < data.len() ==> schema.reads(decodes[i], #[trigger] data[i], reads[i]),
        logs.last() == messages(
            reads.map_values(|read: Option<APIResult<Payload, E>>| payload_in(read)),
        ),
    decreases data.len(),
{
    let heard = |read: Option<APIResult<Payload, E>>| payload_in(read);
    if data.len() == 0 {
        let reads = Seq::<Option<APIResult<Payload, E>>>::empty();
        lemma_messages_empty(reads.map_values(heard));
        reads
    } else {
        let last = data.len() - 1;
        assert forall|i: int| 0 <= i < last implies handles(
            schema,
            incoming,
            decodes.drop_last()[i],
            #[trigger] data.drop_last()[i],
            Ok(handled.drop_last()[i]),
            logs.drop_last()[i],
            logs.drop_last()[i + 1],
        ) by {
            assert(data[i] == data.drop_last()[i]);
        }
        let earlier = law_hands_on_what_it_read(
            schema,
            incoming,
            decodes.drop_last(),
            data.drop_last(),
            handled.drop_last(),
            logs.drop_last(),
        );
        assert(data[last] == data.last());
        let read = choose|read: Option<APIResult<Payload, E>>| #[trigger]
            schema.reads(decodes[last], data[last], read) && hands_on(
                incoming,
                read,
                Ok(handled[last]),
                logs[last],
                logs[last + 1],
            );
        let reads = earlier.push(read);
        assert forall|i: int| 0 <= i < data.len() implies schema.reads(
            decodes[i],
            #[trigger] data[i],
            reads[i],
        ) by {
            if i < last {
                assert(data[i] == data.drop_last()[i]);
            }
        }
        lemma_messages_push(earlier.map_values(heard), payload_in(read));
        assert(reads.map_values(heard) =~= earlier.map_values(heard).push(payload_in(read)));
        reads
    }
}

/// Whether `turn` is what a task does about a message that was encoded as this: it writes text
/// exactly where that is UTF-8.
pub open spec fn writes<E>(encoded: APIResult<Vec<u8>, E>, turn: OutgoingTurn<E>) -> bool {
    match turn {
        OutgoingTurn::Send(text) => is_text(encoded, Ok(text)),
        OutgoingTurn::Skip(error) => is_text(encoded, Err(error)),
        OutgoingTurn::Close => false,
    }
}

/// Whether `turn` is what a task may do about what came from the socket.
pub open spec fn answers<B, E, F>(
    schema: SocketSchema<B>,
    encode: F,
    msg: Option<Payload>,
    turn: OutgoingTurn<E>,
) -> bool where F: FnOnce(&B, &JSONPayload) -> Result<Vec<u8>, E> {
    match msg {
        Some(msg) => exists|encoded: APIResult<Vec<u8>, E>| #[trigger]
            schema.encodes(encode, msg, encoded) && writes(encoded, turn),
        None => turn is Close,
    }
}

/// The texts that are written for messages are, in order and once each, those of the messages that
/// are encoded as UTF-8.
proof fn lemma_written<B, E, F>(
    schema: SocketSchema<B>,
    encodes: Seq<F>,
    msgs: Seq<Payload>,
    turns: Seq<OutgoingTurn<E>>,
) -> (encoded: Seq<APIResult<Vec<u8>, E>>) where
    F: FnOnce(&B, &JSONPayload) -> Result<Vec<u8>, E>,

    requires
        encodes.len() == msgs.len(),
        turns.len() == msgs.len(),
        forall|i: int|
            0 <= i < msgs.len() ==> answers(
                schema,
                encodes[i],
                Some(#[trigger] msgs[i]),
                turns[i],
            ),
    ensures
        encoded.len() == msgs.len(),
        forall|i: int|
            0 <= i < msgs.len() ==> schema.encodes(encodes[i], #[trigger] msgs[i], encoded[i]),
        written(turns).map_values(|text: String| encode_utf8(text@)) == messages(
            encoded.map_values(|e: APIResult<Vec<u8>, E>| sendable(e)),
        ),
    decreases msgs.len(),
{
    let text_of = |turn: OutgoingTurn<E>| turn.text();
    let bytes_of = |text: String| encode_utf8(text@);
    let sent_of = |e: APIResult<Vec<u8>, E>| sendable(e);
    if msgs.len() == 0 {
        let encoded = Seq::<APIResult<Vec<u8>, E>>::empty();
        lemma_messages_empty(turns.map_values(text_of));
        lemma_messages_empty(encoded.map_values(sent_of));
        assert(written(turns).map_values(bytes_of) =~= messages(encoded.map_values(sent_of)));
        encoded
    } else {
        let last = msgs.len() - 1;
        let (earlier_msgs, earlier_turns) = (msgs.drop_last(), turns.drop_last());
        assert forall|i: int| 0 <= i < earlier_msgs.len() implies answers(
            schema,
            encodes.drop_last()[i],
            Some(#[trigger] earlier_msgs[i]),
            earlier_turns[i],
        ) by {
            assert(msgs[i] == earlier_msgs[i]);
        }
        let earlier = lemma_written(schema, encodes.drop_last(), earlier_msgs, earlier_turns);
        assert(answers(schema, encodes[last], Some(msgs[last]), turns[last]));
        let e = choose|e: APIResult<Vec<u8>, E>| #[trigger]
            schema.encodes(encodes[last], msgs[last], e) && writes(e, turns[last]);
        let encoded = earlier.push(e);
        assert forall|i: int| 0 <= i < msgs.len() implies schema.encodes(
            encodes[i],
            #[trigger] msgs[i],
            encoded[i],
        ) by {
            if i < last {
                assert(msgs[i] == earlier_msgs[i]);
            }
        }
        lemma_messages_push(earlier_turns.map_values(text_of), turns[last].text());
        assert(turns.map_values(text_of) =~= earlier_turns.map_values(text_of).push(
            turns[last].text(),
        ));
        lemma_messages_push(earlier.map_values(sent_of), sendable(e));
        assert(encoded.map_values(sent_of) =~= earlier.map_values(sent_of).push(sendable(e)));
        assert(written(turns).map_values(bytes_of) =~= log_after(
            written(earlier_turns).map_values(bytes_of),
            sendable(e),
        ));
        encoded
    }
}

/// A task that has closed the connection has written exactly the messages that the socket took and
/// that are encoded as UTF-8, in the order in which they were sent and once each. `turns` are its
/// turns: one for each message that it handled, and one for the end.
pub proof fn law_writes_what_was_sent<B, E, F>(
    schema: SocketSchema<B>,
    steps: Seq<Step<Payload>>,
    encodes: Seq<F>,
    turns: Seq<OutgoingTurn<E>>,
) -> (encoded: Seq<APIResult<Vec<u8>, E>>) where
    F: FnOnce(&B, &JSONPayload) -> Result<Vec<u8>, E>,

    requires
        Session::start().run(steps).ended,
        turns.len() == Session::start().run(steps).handled.len() + 1,
        encodes.len() == turns.len(),
        forall|i: int|
            0 <= i < Session::start().run(steps).handled.len() ==> answers(
                schema,
                encodes[i],
                Some(#[trigger] Session::start().run(steps).handled[i]),
                turns[i],
            ),
        answers(schema, encodes.last(), None, turns.last()),
    ensures
        encoded.len() == Session::start().run(steps).accepted.len(),
        forall|i: int|
            0 <= i < encoded.len() ==> schema.encodes(
                encodes[i],
                #[trigger] Session::start().run(steps).accepted[i],
                encoded[i],
            ),
        written(turns).map_values(|text: String| encode_utf8(text@)) == messages(
            encoded.map_values(|e: APIResult<Vec<u8>, E>| sendable(e)),
        ),
{
    let text_of = |turn: OutgoingTurn<E>| turn.text();
    let handled = Session::<Payload>::start().run(steps).handled;
    law_close_after_drain(steps);
    assert forall|i: int| 0 <= i < handled.len() implies answers(
        schema,
        encodes.drop_last()[i],
        Some(#[trigger] handled[i]),
        turns.drop_last()[i],
    ) by {
        assert(encodes.drop_last()[i] == encodes[i]);
    }
    let encoded = lemma_written(schema, encodes.drop_last(), handled, turns.drop_last());
    assert forall|i: int| 0 <= i < encoded.len() implies schema.encodes(
        encodes[i],
        #[trigger] Session::<Payload>::start().run(steps).accepted[i],
        encoded[i],
    ) by {
        assert(schema.encodes(encodes.drop_last()[i], handled[i], encoded[i]));
    }
    lemma_messages_push(turns.drop_last().map_values(text_of), None);
    assert(turns.map_values(text_of) =~= turns.drop_last().map_values(text_of).push(None));
    encoded
}

/// The response of an endpoint that only takes messages in is all that its peer is sent: once the
/// sink is gone with it, no more messages are taken, whatever happens, and the task ends with the
/// response handled, or with nothing handled where none was queued.
pub proof fn law_one_response<E>(
    response: Option<APIResult<JSONPayload, E>>,
    responded: Responded<E>,
    steps: Seq<Step<Payload>>,
)
    ensures
        ({
            let sent = match responded.queued(response) {
                Some(payload) => seq![payload],
                None => Seq::empty(),
            };
            let start = Session::start();
            let session = match responded.queued(response) {
                Some(payload) => start.after(Step::Send(payload)),
                None => start,
            }.after(Step::Shutdown);
            &&& session.run(steps).accepted == sent
            &&& session.turns(sent.len() + 1).ended
            &&& session.turns(sent.len() + 1).handled == sent
        }),
{
    let start = Session::<Payload>::start();
    let session = match responded.queued(response) {
        Some(payload) => start.after(Step::Send(payload)),
        None => start,
    };
    assert(session.consistent());
    law_shutdown_refuses(session, steps);
    law_shutdown_completes(session);
    match responded.queued(response) {
        Some(payload) => {
            assert(session.accepted =~= seq![payload]);
        },
        None => {},
    }
}

impl<T, S> Socket<T, S> {
    /// Where the messages for the peer go.
    pub closed spec fn outgoing(self) -> UnboundedSender<T> {
        self.outgoing_message_tx
    }

    /// Where the messages of the peer come out.
    pub closed spec fn incoming(self) -> Mutex<UnboundedReceiver<T>> {
        self.incoming_message_rx
    }

    /// Where the call to shut down goes.
    pub closed spec fn signal(self) -> watch::Sender<S> {
        self.shutdown
    }

    /// Queues a message for the peer.
    pub fn send(&self, msg: T) -> (sent: Result<(), ChannelClosed<T>>)
        ensures
            sends(self.outgoing(), msg, sent),
    {
        send_on(&self.outgoing_message_tx, msg)
    }

    /// Borrows the receiving end that the messages of the peer come out of.
    pub fn receiver(&self) -> (receiver: &Mutex<UnboundedReceiver<T>>)
        ensures
            *receiver == self.incoming(),
    {
        &self.incoming_message_rx
    }

    /// Parts the socket into its two halves.
    pub fn split(self) -> (halves: (Sink<T, S>, Stream<T>))
        ensures
            halves.0.outgoing() == self.outgoing(),
            halves.0.signal() == self.signal(),
            halves.1.incoming() == self.incoming(),
    {
        let Socket { outgoing_message_tx: tx, incoming_message_rx: rx, shutdown } = self;
        (Sink { tx, shutdown }, Stream { rx })
    }
}

impl<T> Socket<T, bool> {
    /// Calls on the task to send what is queued and to close the connection then.
    pub fn close(&self)
        ensures
            signalled(self.signal(), true),
    {
        let _ = signal_on(&self.shutdown, true);
    }
}

impl Socket {
    /// Makes a socket, and the task's ends of its channels.
    pub fn new<B: Stoppable>(incoming: Arc<Request<B>>, outgoing: Arc<Response<B>>) -> (made: (
        Socket<Payload, <B as Stoppable>::Signal>,
        SocketTask<B, <B as Stoppable>::Signal>,
    ))
        ensures
            made.1.schema == (SocketSchema { incoming, outgoing }),
            connected(made.0.outgoing(), made.1.outgoing_messages_rx),
            feeds(made.1.incoming_messages_tx.sender(), made.0.incoming()),
            made.1.incoming_messages_tx.taken() == Seq::<Payload>::empty(),
            watches(made.0.signal(), made.1.shutdown_watch, B::idle()),
    {
        let (shutdown, shutdown_watch) = B::signal_channel();
        let (outgoing_message_tx, outgoing_messages_rx) = unbounded_channel();
        let (incoming_messages_tx, incoming_message_rx) = unbounded_channel();
        let ghost rx = incoming_message_rx;
        let incoming_message_rx = Mutex::from(incoming_message_rx);
        assert(connected(incoming_messages_tx, rx) && guards(incoming_message_rx, rx));
        let socket = Socket { outgoing_message_tx, incoming_message_rx, shutdown };
        let task = SocketTask {
            schema: SocketSchema { incoming, outgoing },
            incoming_messages_tx: Outbox::new(incoming_messages_tx),
            outgoing_messages_rx,
            shutdown_watch,
        };
        (socket, task)
    }

    /// Turns a message for the peer into the text that is sent.
    pub fn handle_outgoing_message<B, E, F>(
        schema: &SocketSchema<B>,
        msg: Payload,
        encode: F,
    ) -> (text: APIResult<String, E>) where F: FnOnce(&B, &JSONPayload) -> Result<Vec<u8>, E>
        requires
            schema.outgoing.body matches Some(body) ==> call_requires(encode, (&body, &Some(msg))),
        ensures
            exists|encoded: APIResult<Vec<u8>, E>| #[trigger]
                schema.encodes(encode, msg, encoded) && is_text(encoded, text),
    {
        let encoded = schema.to_outgoing_message(msg, encode);
        into_text(encoded)
    }

    /// Reads a message of the peer and hands its payload on.
    pub fn handle_incoming_message<B, M, E, F>(
        schema: &SocketSchema<B>,
        incoming: &mut Outbox<Payload>,
        msg: M,
        decode: F,
    ) -> (handled: Result<Handled<E>, ChannelClosed<Payload>>) where
        M: MessagePayload,
        F: FnOnce(&B, &[u8]) -> Result<JSONPayload, E>,

        requires
            forall|body: B, bytes: &[u8]|
                schema.incoming_body() == Some(body) && msg.data() == Some(bytes@)
                    ==> #[trigger] call_requires(decode, (&body, bytes)),
        ensures
            final(incoming).sender() == old(incoming).sender(),
            handles(
                *schema,
                old(incoming).sender(),
                decode,
                msg.data(),
                handled,
                old(incoming).taken(),
                final(incoming).taken(),
            ),
    {
        match msg.payload() {
            Some(data) => {
                let parsed = schema.parse_incoming_message(data, decode);
                assert(schema.reads(decode, msg.data(), Some(parsed)));
                match parsed {
                    Ok(payload) => match incoming.send(payload) {
                        Ok(()) => Ok(Handled::Delivered),
                        Err(closed) => Err(closed),
                    },
                    Err(error) => Ok(Handled::Rejected(error)),
                }
            },
            None => {
                assert(schema.reads::<E, F>(decode, msg.data(), None));
                Ok(Handled::Ignored)
            },
        }
    }
}

impl<T, S> Sink<T, S> {
    /// Where the messages for the peer go.
    pub closed spec fn outgoing(self) -> UnboundedSender<T> {
        self.tx
    }

    /// Where the call to shut down goes.
    pub closed spec fn signal(self) -> watch::Sender<S> {
        self.shutdown
    }

    /// Queues a message for the peer.
    pub fn send(&self, msg: T) -> (sent: Result<(), ChannelClosed<T>>)
        ensures
            sends(self.outgoing(), msg, sent),
    {
        send_on(&self.tx, msg)
    }
}

impl<T> Sink<T, bool> {
    /// Calls on the task to send what is queued and to close the connection then.
    pub fn close(&self)
        ensures
            signalled(self.signal(), true),
    {
        let _ = signal_on(&self.shutdown, true);
    }
}

impl<S> Sink<Payload, S> {
    /// Queues the response of an endpoint for the peer, where there is one: `None` says that the
    /// endpoint ended without it. The sink is gone then, so that nothing can follow the response.
    pub fn respond<E>(self, response: Option<APIResult<JSONPayload, E>>) -> (responded: Responded<
        E,
    >)
        ensures
            match response {
                Some(Ok(Some(payload))) => match responded {
                    Responded::Sent => sends(self.outgoing(), payload, Ok(())),
                    Responded::SinkClosed(closed) => sends(self.outgoing(), payload, Err(closed)),
                    _ => false,
                },
                Some(Ok(None)) => responded is Empty,
                Some(Err(error)) => responded == Responded::Failed(error),
                None => responded is Missing,
            },
    {
        match response {
            Some(Ok(Some(payload))) => match self.send(payload) {
                Ok(()) => Responded::Sent,
                Err(closed) => Responded::SinkClosed(closed),
            },
            Some(Ok(None)) => Responded::Empty,
            Some(Err(error)) => Responded::Failed(error),
            None => Responded::Missing,
        }
    }
}

impl<T> Stream<T> {
    /// Where the messages of the peer come out.
    pub closed spec fn incoming(self) -> Mutex<UnboundedReceiver<T>> {
        self.rx
    }

    /// Borrows the receiving end that the messages of the peer come out of.
    pub fn receiver(&self) -> (receiver: &Mutex<UnboundedReceiver<T>>)
        ensures
            *receiver == self.incoming(),
    {
        &self.rx
    }
}

impl<T, S> StreamMessagePayload<T, S> {
    /// Takes from a socket what an endpoint of this direction is handed. Where the endpoint only
    /// takes messages in, the sending half is left over for its response.
    pub fn new(socket: Socket<T, S>, direction: StreamDirection) -> (opened: (
        StreamMessagePayload<T, S>,
        Option<Sink<T, S>>,
    ))
        ensures
            match direction {
                StreamDirection::InOut => {
                    &&& opened.0 == StreamMessagePayload::InOut(socket)
                    &&& opened.1 is None
                },
                StreamDirection::In => {
                    &&& opened.0 matches StreamMessagePayload::In(stream)
                    &&& opened.1 matches Some(sink)
                    &&& stream.incoming() == socket.incoming()
                    &&& sink.outgoing() == socket.outgoing()
                    &&& sink.signal() == socket.signal()
                },
                StreamDirection::Out => {
                    &&& opened.0 matches StreamMessagePayload::Out(sink)
                    &&& opened.1 is None
                    &&& sink.outgoing() == socket.outgoing()
                    &&& sink.signal() == socket.signal()
                },
            },
    {
        match direction {
            StreamDirection::InOut => (StreamMessagePayload::InOut(socket), None),
            StreamDirection::In => {
                let (sink, stream) = socket.split();
                (StreamMessagePayload::In(stream), Some(sink))
            },
            StreamDirection::Out => {
                let (sink, _stream) = socket.split();
                (StreamMessagePayload::Out(sink), None)
            },
        }
    }
}

impl<B, S> SocketTask<B, S> {
    /// Answers to what came from the connection: a message, an error in reading, or `None` once it
    /// is closed.
    pub fn on_websocket<M, W, E, F>(&mut self, received: Option<Result<M, W>>, decode: F) -> (turn:
        IncomingTurn<E, W>) where
        M: MessagePayload,
        F: FnOnce(&B, &[u8]) -> Result<JSONPayload, E>,

        requires
            forall|body: B, bytes: &[u8]|
                received matches Some(Ok(msg)) && old(self).schema.incoming_body() == Some(body)
                    && msg.data() == Some(bytes@) ==> #[trigger] call_requires(
                    decode,
                    (&body, bytes),
                ),
        ensures
            hears(
                old(self).schema,
                old(self).incoming_messages_tx.sender(),
                decode,
                received,
                turn,
                old(self).incoming_messages_tx.taken(),
                final(self).incoming_messages_tx.taken(),
            ),
            turn.step() == match (received, turn) {
                (Some(Ok(_)), IncomingTurn::Continue(_)) => None,
                _ => Some(Step::<Payload>::Lose),
            },
            final(self).schema == old(self).schema,
            final(self).incoming_messages_tx.sender() == old(self).incoming_messages_tx.sender(),
            final(self).outgoing_messages_rx == old(self).outgoing_messages_rx,
            final(self).shutdown_watch == old(self).shutdown_watch,
    {
        match received {
            None => IncomingTurn::Stop(StopReason::Closed),
            Some(Err(error)) => IncomingTurn::Stop(StopReason::ReceiveFailed(error)),
            Some(Ok(msg)) => {
                match Socket::handle_incoming_message(
                    &self.schema,
                    &mut self.incoming_messages_tx,
                    msg,
                    decode,
                ) {
                    Ok(handled) => IncomingTurn::Continue(handled),
                    Err(closed) => IncomingTurn::Stop(StopReason::IncomingClosed(closed)),
                }
            },
        }
    }

    /// Answers to what came from the socket: a message, or `None` once there will be no more.
    pub fn on_outgoing<E, F>(&self, msg: Option<Payload>, encode: F) -> (turn: OutgoingTurn<
        E,
    >) where F: FnOnce(&B, &JSONPayload) -> Result<Vec<u8>, E>
        requires
            forall|body: B|
                self.schema.outgoing.body == Some(body) && msg is Some ==> #[trigger] call_requires(
                    encode,
                    (&body, &msg),
                ),
        ensures
            turn.step() == step_of(msg),
            answers(self.schema, encode, msg, turn),
    {
        match msg {
            None => OutgoingTurn::Close,
            Some(msg) => {
                match Socket::handle_outgoing_message(&self.schema, msg, encode) {
                    Ok(text) => OutgoingTurn::Send(text),
                    Err(error) => OutgoingTurn::Skip(error),
                }
            },
        }
    }

    /// Answers to a call to shut down: no more messages are taken in, those that are queued still
    /// come out, and then `on_outgoing` hears `None`.
    pub fn on_shutdown(&mut self)
        ensures
            final(self).schema == old(self).schema,
            final(self).incoming_messages_tx == old(self).incoming_messages_tx,
            final(self).shutdown_watch == old(self).shutdown_watch,
            exists|rx: &mut UnboundedReceiver<Payload>|
                *rx == old(self).outgoing_messages_rx && *final(rx)
                    == final(self).outgoing_messages_rx && #[trigger] call_ensures(
                    UnboundedReceiver::<Payload>::close,
                    (rx,),
                    (),
                ),
    {
        self.outgoing_messages_rx.close();
    }
}

} // verus!
