//! The client side of a stream.
use bytes::Bytes;
use std::string::FromUtf8Error;
use tokio::sync::mpsc::{unbounded_channel, UnboundedReceiver, UnboundedSender};
use tokio::sync::{watch, Mutex};
use tokio_tungstenite::tungstenite::Message;
use vstd::prelude::*;
use vstd::utf8::{encode_utf8, valid_utf8};

use crate::boundary::buffered;
use crate::channel::{
    connected, feeds, guards, sends, signal_on, signals, watches, Courier, Outbox,
};
use crate::delivery::{
    lemma_messages_empty, lemma_messages_push, log_after, messages, Delivery, DeliveryStep,
};
use crate::drain::{law_close_after_drain, step_of, Session, Step};
use crate::error::ChannelClosed;
use crate::message::MessagePayload;
use crate::schema::{is_text, unreadable};

verus! {

/// The client's end of a websocket connection, which exchanges messages `T` and calls on its
/// writing task by signals `S`.
#[derive(Debug)]
#[verifier::reject_recursive_types(T)]
#[verifier::reject_recursive_types(S)]
pub struct WebSocketClient<T = Message, S = bool> {
    send_channel: UnboundedSender<T>,
    receive_channel: Mutex<UnboundedReceiver<T>>,
    shutdown: watch::Sender<S>,
}

/// What the task that writes to the connection holds.
#[derive(Debug)]
pub struct SendTask {
    /// Where the messages to write come out.
    pub rx: UnboundedReceiver<Message>,
    /// Where the call to shut down comes out.
    pub shutdown: watch::Receiver<bool>,
}

/// What the task that reads from the connection holds.
pub struct ReceiveTask {
    /// Where the messages that were read go.
    pub tx: Outbox<Message>,
}

/// Why a message could not be sent.
#[derive(Debug)]
pub enum SendFailure<T = Message, R = FromUtf8Error> {
    /// It is not text.
    InvalidUtf8(R),
    /// The connection takes no more messages.
    Closed(ChannelClosed<T>),
}

/// What can be sent as one message `T`. Where no more is known, it gives one message at most, and
/// no other can be made up.
pub trait Outgoing<T>: Sized {
    /// Why it cannot be sent.
    type Failure;

    /// Turns it into a message.
    fn into_message(self) -> (made: Result<T, Self::Failure>);
}

impl Outgoing<Message> for Bytes {
    type Failure = FromUtf8Error;

    fn into_message(self) -> (made: Result<Message, FromUtf8Error>)
        ensures
            match made {
                Ok(Message::Text(text)) => {
                    &&& valid_utf8(buffered(self))
                    &&& encode_utf8(text@) == buffered(self)
                },
                Ok(_) => false,
                Err(error) => {
                    &&& !valid_utf8(buffered(self))
                    &&& unreadable(buffered(self), error)
                },
            },
    {
        let bytes: Vec<u8> = Vec::from(self);
        match String::from_utf8(bytes) {
            Ok(text) => Ok(Message::Text(text)),
            Err(error) => {
                assert(unreadable(buffered(self), error));
                Err(error)
            },
        }
    }
}

/// What a receiving client makes of what came out of its channel.
#[derive(Debug)]
pub enum Received {
    /// It returns this data.
    Data(Bytes),
    /// It goes on to the next message, as this one carries no data.
    Skip(Message),
    /// It returns that there will be no more messages.
    End,
}

/// What the writing task does after the client was heard from.
#[derive(Debug)]
pub enum SendTurn {
    /// It writes this message, and goes on whether that succeeds or not.
    Send(Message),
    /// It closes the connection and ends.
    Close,
}

/// What the reading task does after the connection was heard from.
#[derive(Debug)]
pub enum ReceiveTurn<W> {
    /// It handed the message on, and goes on.
    Forwarded,
    /// Nobody receives messages any more; it goes on all the same.
    Refused(ChannelClosed<Message>),
    /// Reading failed; it goes on all the same.
    Failed(W),
    /// It ends, as the connection is closed.
    Stop,
}

/// Whether `sent` is what became of sending `text` as a message.
pub open spec fn sends_text(
    sender: UnboundedSender<Message>,
    text: String,
    sent: Result<(), SendFailure>,
) -> bool {
    match sent {
        Ok(()) => sends(sender, Message::Text(text), Ok(())),
        Err(SendFailure::Closed(closed)) => sends(sender, Message::Text(text), Err(closed)),
        Err(SendFailure::InvalidUtf8(_)) => false,
    }
}

/// Whether `sent` is what became of sending what was turned into `made`.
pub open spec fn posts<T, R>(
    sender: UnboundedSender<T>,
    made: Result<T, R>,
    sent: Result<(), SendFailure<T, R>>,
) -> bool {
    match (made, sent) {
        (Ok(msg), Ok(())) => sends(sender, msg, Ok(())),
        (Ok(msg), Err(SendFailure::Closed(closed))) => sends(sender, msg, Err(closed)),
        (Err(error), Err(SendFailure::InvalidUtf8(reason))) => reason == error,
        _ => false,
    }
}

/// Puts what is sent into a channel as one message, through an end that is lent for it. Where that
/// fails, nothing is put into the channel.
pub fn post<T, M: Outgoing<T>>(courier: &mut Courier<'_, T>, msg: M) -> (sent: Result<
    (),
    SendFailure<T, M::Failure>,
>)
    ensures
        final(courier).sender() == old(courier).sender(),
        exists|made: Result<T, M::Failure>| #[trigger]
            call_ensures(M::into_message, (msg,), made) && posts(
                old(courier).sender(),
                made,
                sent,
            ) && final(courier).taken() == match (made, sent) {
                (Ok(msg), Ok(())) => old(courier).taken().push(msg),
                _ => old(courier).taken(),
            },
{
    match msg.into_message() {
        Ok(msg) => match courier.send(msg) {
            Ok(()) => Ok(()),
            Err(closed) => Err(SendFailure::Closed(closed)),
        },
        Err(error) => Err(SendFailure::InvalidUtf8(error)),
    }
}

impl<T, S> WebSocketClient<T, S> {
    /// Where the messages to write go.
    pub closed spec fn outgoing(self) -> UnboundedSender<T> {
        self.send_channel
    }

    /// Where the messages that were read come out.
    pub closed spec fn incoming(self) -> Mutex<UnboundedReceiver<T>> {
        self.receive_channel
    }

    /// Where the call to shut down goes.
    pub closed spec fn signal(self) -> watch::Sender<S> {
        self.shutdown
    }

    /// Queues a message; bytes go out as text. What is sent gives one message at most, so that
    /// nothing else can be queued with it.
    pub fn send<M: Outgoing<T>>(&self, msg: M) -> (sent: Result<(), SendFailure<T, M::Failure>>)
        ensures
            exists|made: Result<T, M::Failure>| #[trigger]
                call_ensures(M::into_message, (msg,), made) && posts(self.outgoing(), made, sent),
    {
        let mut courier = Courier::new(&self.send_channel);
        post(&mut courier, msg)
    }

    /// Borrows the receiving end that the messages that were read come out of.
    pub fn receiver(&self) -> (receiver: &Mutex<UnboundedReceiver<T>>)
        ensures
            *receiver == self.incoming(),
    {
        &self.receive_channel
    }
}

/// Bytes are sent as one text, exactly where they are UTF-8, and the text is all of them.
pub proof fn law_bytes_are_sent_as_text<S>(
    client: WebSocketClient<Message, S>,
    msg: Bytes,
    sent: Result<(), SendFailure>,
)
    requires
        call_ensures(WebSocketClient::<Message, S>::send::<Bytes>, (&client, msg), sent),
    ensures
        match sent {
            Err(SendFailure::InvalidUtf8(error)) => {
                &&& !valid_utf8(buffered(msg))
                &&& unreadable(buffered(msg), error)
            },
            _ => {
                &&& valid_utf8(buffered(msg))
                &&& exists|text: String| #[trigger]
                    encode_utf8(text@) == buffered(msg) && sends_text(client.outgoing(), text, sent)
            },
        },
{
}

impl<T> WebSocketClient<T, bool> {
    /// Calls on the writing task to write what is queued and to close the connection then. It is an
    /// error that the task is gone.
    pub fn close(&self) -> (outcome: Result<(), ChannelClosed<bool>>)
        ensures
            signals(self.signal(), true, outcome),
    {
        signal_on(&self.shutdown, true)
    }
}

impl WebSocketClient {
    /// Makes a client, and its tasks' ends of its channels.
    pub fn new() -> (made: (WebSocketClient, SendTask, ReceiveTask))
        ensures
            connected(made.0.outgoing(), made.1.rx),
            feeds(made.2.tx.sender(), made.0.incoming()),
            made.2.tx.taken() == Seq::<Message>::empty(),
            watches(made.0.signal(), made.1.shutdown, false),
    {
        let (send_channel_tx, send_channel_rx) = unbounded_channel();
        let (receive_channel_tx, receive_channel_rx) = unbounded_channel();
        let (shutdown, shutdown_watch) = watch::channel(false);
        let ghost rx = receive_channel_rx;
        let receive_channel = Mutex::from(receive_channel_rx);
        assert(connected(receive_channel_tx, rx) && guards(receive_channel, rx));
        let client = WebSocketClient { send_channel: send_channel_tx, receive_channel, shutdown };
        let send_task = SendTask { rx: send_channel_rx, shutdown: shutdown_watch };
        let receive_task = ReceiveTask { tx: Outbox::new(receive_channel_tx) };
        (client, send_task, receive_task)
    }

    /// Answers to what came out of the receiving end: a message, or `None` once there will be no
    /// more.
    pub fn on_received(msg: Option<Message>) -> (received: Received)
        ensures
            received.step() == recv_step(msg),
            received matches Received::Skip(skipped) ==> msg == Some(skipped),
    {
        match msg {
            Some(Message::Text(text)) => Received::Data(Bytes::from(text)),
            Some(Message::Binary(data)) => Received::Data(Bytes::from(data)),
            Some(msg) => Received::Skip(msg),
            None => Received::End,
        }
    }
}

/// What a receiving client does next.
pub enum RecvStep {
    /// It returns this.
    Return(Option<Seq<u8>>),
    /// It waits for the next message.
    Again,
}

/// What a receiving client does about what came out of its channel: it returns the data of the
/// first message that carries some, and returns `None` once the channel is closed.
pub open spec fn recv_step(msg: Option<Message>) -> RecvStep {
    match msg {
        Some(msg) => match msg.data() {
            Some(data) => RecvStep::Return(Some(data)),
            None => RecvStep::Again,
        },
        None => RecvStep::Return(None),
    }
}

/// What a receiving client returns when its closed channel holds these messages, and what is left
/// in the channel then.
pub open spec fn recv_from(queued: Seq<Message>) -> (Option<Seq<u8>>, Seq<Message>)
    decreases queued.len(),
{
    let taken = if queued.len() == 0 {
        None
    } else {
        Some(queued[0])
    };
    match recv_step(taken) {
        RecvStep::Return(returned) => (
            returned,
            if queued.len() == 0 {
                queued
            } else {
                queued.drop_first()
            },
        ),
        RecvStep::Again => if queued.len() == 0 {
            (None, queued)
        } else {
            recv_from(queued.drop_first())
        },
    }
}

/// A client receives the data of the first message that carries some, passes over the messages
/// before it, and leaves those behind it.
pub proof fn law_recv_first_data(queued: Seq<Message>, first: int)
    requires
        0 <= first < queued.len(),
        queued[first].data() is Some,
        forall|i: int| 0 <= i < first ==> (#[trigger] queued[i]).data() is None,
    ensures
        recv_from(queued) == (queued[first].data(), queued.skip(first + 1)),
    decreases queued.len(),
{
    if first > 0 {
        assert(queued[0].data() is None);
        let rest = queued.drop_first();
        assert forall|i: int| 0 <= i < first - 1 implies (#[trigger] rest[i]).data() is None by {
            assert(rest[i] == queued[i + 1]);
        }
        law_recv_first_data(rest, first - 1);
        assert(rest.skip(first) =~= queued.skip(first + 1));
    } else {
        assert(queued.drop_first() =~= queued.skip(1));
    }
}

/// A client whose channel is closed and holds no data receives `None`.
pub proof fn law_recv_end(queued: Seq<Message>)
    requires
        forall|i: int| 0 <= i < queued.len() ==> (#[trigger] queued[i]).data() is None,
    ensures
        recv_from(queued).0 is None,
    decreases queued.len(),
{
    if queued.len() > 0 {
        assert(queued[0].data() is None);
        let rest = queued.drop_first();
        assert forall|i: int| 0 <= i < rest.len() implies (#[trigger] rest[i]).data() is None by {
            assert(rest[i] == queued[i + 1]);
        }
        law_recv_end(rest);
    }
}

/// What a client sends, the client at the other end receives: the text that goes out for some
/// bytes is received as those bytes.
pub proof fn law_sent_is_received(sent: Seq<u8>, text: String)
    requires
        encode_utf8(text@) == sent,
    ensures
        recv_step(Some(Message::Text(text))) == RecvStep::Return(Some(sent)),
{
}

/// What a server sends, a client receives: the text that goes out for an encoded message is
/// received as the bytes that it was encoded as.
pub proof fn law_server_message_is_received<E>(encoded: Vec<u8>, text: String)
    requires
        is_text::<E>(Ok(encoded), Ok(text)),
    ensures
        recv_step(Some(Message::Text(text))) == RecvStep::Return(Some(encoded@)),
{
}

impl Received {
    /// What a client with this answer does next.
    pub open spec fn step(self) -> RecvStep {
        match self {
            Received::Data(data) => RecvStep::Return(Some(buffered(data))),
            Received::Skip(_) => RecvStep::Again,
            Received::End => RecvStep::Return(None),
        }
    }
}

impl SendTurn {
    /// Which step of the messages to write the turn is.
    pub open spec fn step(self) -> Step<Message> {
        match self {
            SendTurn::Send(_) => Step::Handle,
            SendTurn::Close => Step::Close,
        }
    }

    /// What a writing task does about what came from the client.
    pub open spec fn answer(msg: Option<Message>) -> SendTurn {
        match msg {
            Some(msg) => SendTurn::Send(msg),
            None => SendTurn::Close,
        }
    }

    /// The message that is written in the turn, if there is one.
    pub open spec fn message(self) -> Option<Message> {
        match self {
            SendTurn::Send(msg) => Some(msg),
            SendTurn::Close => None,
        }
    }
}

/// The turns that answer to messages write those messages, in order and once each.
proof fn lemma_written(msgs: Seq<Message>, turns: Seq<SendTurn>)
    requires
        turns.len() == msgs.len(),
        forall|i: int|
            0 <= i < msgs.len() ==> #[trigger] turns[i] == SendTurn::answer(Some(msgs[i])),
    ensures
        messages(turns.map_values(|turn: SendTurn| turn.message())) == msgs,
    decreases msgs.len(),
{
    let message_of = |turn: SendTurn| turn.message();
    if msgs.len() == 0 {
        lemma_messages_empty(turns.map_values(message_of));
        assert(msgs =~= Seq::empty());
    } else {
        let earlier = turns.drop_last();
        lemma_written(msgs.drop_last(), earlier);
        assert(turns[turns.len() - 1] == SendTurn::answer(Some(msgs.last())));
        lemma_messages_push(earlier.map_values(message_of), Some(msgs.last()));
        assert(turns.map_values(message_of) =~= earlier.map_values(message_of).push(
            Some(msgs.last()),
        ));
        assert(msgs =~= msgs.drop_last().push(msgs.last()));
    }
}

/// A writing task that has closed the connection has written exactly the messages that its channel
/// took, in the order in which they were sent and once each. `turns` are its turns: one for each
/// message that it handled, and one for the end.
pub proof fn law_writes_what_was_sent(steps: Seq<Step<Message>>, turns: Seq<SendTurn>)
    requires
        Session::start().run(steps).ended,
        turns.len() == Session::start().run(steps).handled.len() + 1,
        forall|i: int|
            0 <= i < turns.len() - 1 ==> #[trigger] turns[i] == SendTurn::answer(
                Some(Session::start().run(steps).handled[i]),
            ),
        turns.last() == SendTurn::answer(None),
    ensures
        messages(turns.map_values(|turn: SendTurn| turn.message())) == Session::start().run(
            steps,
        ).accepted,
{
    let message_of = |turn: SendTurn| turn.message();
    let earlier = turns.drop_last();
    law_close_after_drain(steps);
    lemma_written(Session::start().run(steps).handled, earlier);
    lemma_messages_push(earlier.map_values(message_of), None);
    assert(turns.map_values(message_of) =~= earlier.map_values(message_of).push(None));
}

/// The message in what was read from the connection, if there is one.
pub open spec fn message_in<W>(received: Result<Message, W>) -> Option<Message> {
    match received {
        Ok(msg) => Some(msg),
        Err(_) => None,
    }
}

impl<W> ReceiveTurn<W> {
    /// Which step of the messages that were read the turn is, where the receiving end is kept.
    pub open spec fn delivery(self, received: Option<Result<Message, W>>) -> DeliveryStep<Message> {
        match received {
            Some(received) => DeliveryStep::Hear(message_in(received)),
            None => DeliveryStep::End,
        }
    }
}

/// Whether `turn` is what a reading task may do about what came from the connection: a message is
/// sent on `tx`, and nothing else is. `before` and `after` are what the channel has taken before
/// and after.
pub open spec fn forwards<W>(
    tx: UnboundedSender<Message>,
    received: Option<Result<Message, W>>,
    turn: ReceiveTurn<W>,
    before: Seq<Message>,
    after: Seq<Message>,
) -> bool {
    &&& match (received, turn) {
        (Some(Ok(msg)), ReceiveTurn::Forwarded) => sends(tx, msg, Ok(())),
        (Some(Ok(msg)), ReceiveTurn::Refused(closed)) => sends(tx, msg, Err(closed)),
        (Some(Err(error)), ReceiveTurn::Failed(reason)) => reason == error,
        (None, ReceiveTurn::Stop) => true,
        _ => false,
    }
    &&& after == match (received, turn) {
        (Some(Ok(msg)), ReceiveTurn::Forwarded) => before.push(msg),
        _ => before,
    }
}

/// A turn of a reading task is the step of its delivery that [`ReceiveTurn::delivery`] names, as
/// long as somebody receives: what the channel has taken after the turn is what it has taken after
/// the step. An error in reading hands nothing on and does not end the task.
pub proof fn law_turn_is_step<W>(
    delivery: Delivery<Message>,
    tx: UnboundedSender<Message>,
    received: Option<Result<Message, W>>,
    turn: ReceiveTurn<W>,
    after: Seq<Message>,
)
    requires
        !delivery.ended,
        turn !is Refused,
        forwards(tx, received, turn, delivery.delivered, after),
    ensures
        delivery.after(turn.delivery(received)).delivered == after,
        delivery.after(turn.delivery(received)).ended <==> turn is Stop,
{
}

/// A reading task hands on exactly the messages that were read, in order, as long as somebody
/// receives: errors in between are passed over. `logs` is what the channel has taken before,
/// between and after what was read.
pub proof fn law_forwards_what_it_read<W>(
    tx: UnboundedSender<Message>,
    received: Seq<Result<Message, W>>,
    turns: Seq<ReceiveTurn<W>>,
    logs: Seq<Seq<Message>>,
)
    requires
        turns.len() == received.len(),
        logs.len() == received.len() + 1,
        logs[0] == Seq::<Message>::empty(),
        forall|i: int| 0 <= i < turns.len() ==> (#[trigger] turns[i]) !is Refused,
        forall|i: int|
            0 <= i < received.len() ==> forwards(
                tx,
                Some(#[trigger] received[i]),
                turns[i],
                logs[i],
                logs[i + 1],
            ),
    ensures
        logs.last() == messages(received.map_values(|read: Result<Message, W>| message_in(read))),
    decreases received.len(),
{
    let heard = |read: Result<Message, W>| message_in(read);
    if received.len() == 0 {
        lemma_messages_empty(received.map_values(heard));
    } else {
        let last = received.len() - 1;
        let earlier = received.drop_last();
        assert forall|i: int| 0 <= i < earlier.len() implies forwards(
            tx,
            Some(#[trigger] earlier[i]),
            turns.drop_last()[i],
            logs.drop_last()[i],
            logs.drop_last()[i + 1],
        ) by {
            assert(received[i] == earlier[i]);
        }
        law_forwards_what_it_read(tx, earlier, turns.drop_last(), logs.drop_last());
        assert(received[last] == received.last());
        lemma_messages_push(earlier.map_values(heard), message_in(received[last]));
        assert(received.map_values(heard) =~= earlier.map_values(heard).push(
            message_in(received[last]),
        ));
        assert(logs.last() == log_after(logs[last], message_in(received[last])));
    }
}

impl SendTask {
    /// Answers to what came from the client: a message, or `None` once there will be no more.
    pub fn on_message(&self, msg: Option<Message>) -> (turn: SendTurn)
        ensures
            turn == SendTurn::answer(msg),
            turn.step() == step_of(msg),
    {
        match msg {
            Some(msg) => SendTurn::Send(msg),
            None => SendTurn::Close,
        }
    }

    /// Answers to a call to shut down: no more messages are taken in, those that are queued still
    /// come out, and then `on_message` hears `None`.
    pub fn on_shutdown(&mut self)
        ensures
            final(self).shutdown == old(self).shutdown,
            exists|rx: &mut UnboundedReceiver<Message>|
                *rx == old(self).rx && *final(rx) == final(self).rx && #[trigger] call_ensures(
                    UnboundedReceiver::<Message>::close,
                    (rx,),
                    (),
                ),
    {
        self.rx.close();
    }
}

impl ReceiveTask {
    /// Answers to what came from the connection: a message, an error in reading, or `None` once it
    /// is closed.
    pub fn on_websocket<W>(&mut self, received: Option<Result<Message, W>>) -> (turn: ReceiveTurn<
        W,
    >)
        ensures
            forwards(
                old(self).tx.sender(),
                received,
                turn,
                old(self).tx.taken(),
                final(self).tx.taken(),
            ),
            final(self).tx.sender() == old(self).tx.sender(),
    {
        match received {
            Some(Ok(msg)) => match self.tx.send(msg) {
                Ok(()) => ReceiveTurn::Forwarded,
                Err(closed) => ReceiveTurn::Refused(closed),
            },
            Some(Err(error)) => ReceiveTurn::Failed(error),
            None => ReceiveTurn::Stop,
        }
    }
}

} // verus!
