//! A socket and its task as a whole: what both directions of a stream guarantee together.
//!
//! A [`crate::websocket::SocketTask`] serves a connection that axum accepted or one that
//! tungstenite opened. The two crates have message types of their own. Over messages that say the
//! same, the two kinds of socket deliver the same, send the same and end alike.
use axum::extract::ws::Message;
use tokio::sync::mpsc::UnboundedSender;
use tokio_tungstenite::tungstenite;
use vstd::prelude::*;

use crate::boundary::Payload;
use crate::delivery::{law_delivery_consistent, law_received_after_end, Delivery, DeliveryStep};
use crate::drain::{law_lost_is_final, law_step_consistent, step_of, Session, Step};
use crate::error::{APIResult, ChannelClosed};
use crate::message::MessagePayload;
use crate::schema::{payload_in, JSONPayload, SocketSchema};
use crate::websocket::{handles, Handled};

verus! {

/// Whether two messages are of the same kind and, where they carry data, carry the same.
pub open spec fn same_message(accepted: Message, opened: tungstenite::Message) -> bool {
    match (accepted, opened) {
        (Message::Text(a), tungstenite::Message::Text(b)) => a@ == b@,
        (Message::Binary(a), tungstenite::Message::Binary(b)) => a@ == b@,
        (Message::Ping(_), tungstenite::Message::Ping(_)) => true,
        (Message::Pong(_), tungstenite::Message::Pong(_)) => true,
        (Message::Close(_), tungstenite::Message::Close(_)) => true,
        _ => false,
    }
}

/// The same message comes to the same on both kinds of connection: it carries the same data, it is
/// read as the same, and the same becomes of it.
pub proof fn law_same_message<B, E, F>(
    accepted: Message,
    opened: tungstenite::Message,
    schema: SocketSchema<B>,
    incoming: UnboundedSender<Payload>,
    decode: F,
    read: Option<APIResult<Payload, E>>,
    handled: Result<Handled<E>, ChannelClosed<Payload>>,
    before: Seq<Payload>,
    after: Seq<Payload>,
) where F: FnOnce(&B, &[u8]) -> Result<JSONPayload, E>
    requires
        same_message(accepted, opened),
    ensures
        accepted.data() == opened.data(),
        schema.reads(decode, accepted.data(), read) <==> schema.reads(decode, opened.data(), read),
        handles(schema, incoming, decode, accepted.data(), handled, before, after) <==> handles(
            schema,
            incoming,
            decode,
            opened.data(),
            handled,
            before,
            after,
        ),
{
}

/// Something that happens to a socket, over a connection with messages `M`.
pub enum Event<M, E> {
    /// This message came from the connection, and was read as this.
    Message(M, Option<APIResult<Payload, E>>),
    /// The connection is closed, reading from it failed, or nobody receives what came from it.
    Lost,
    /// This message is sent on the socket.
    Send(Payload),
    /// The socket is closed or dropped.
    Shutdown,
    /// The task takes what the socket's channel gives out.
    Turn,
    /// The next message is received from the socket.
    Receive,
}

/// A socket and its task. The socket's receiving end is kept as long as messages come.
pub struct Exchange {
    /// The messages for the peer.
    pub outgoing: Session<Payload>,
    /// The messages of the peer.
    pub incoming: Delivery<Payload>,
}

impl<M, E> Event<M, E> where M: MessagePayload {
    /// Whether this can happen to a socket with this schema: a message is read as its data is.
    pub open spec fn possible<B, F>(self, schema: SocketSchema<B>, decode: F) -> bool where
        F: FnOnce(&B, &[u8]) -> Result<JSONPayload, E>,
     {
        match self {
            Event::Message(msg, read) => schema.reads(decode, msg.data(), read),
            _ => true,
        }
    }
}

impl Exchange {
    /// A socket at its start.
    pub open spec fn start() -> Exchange {
        Exchange { outgoing: Session::start(), incoming: Delivery::start() }
    }

    /// The socket after an event. The task drops its end of the messages of the peer when it ends.
    pub open spec fn after<M, E>(self, event: Event<M, E>) -> Exchange {
        match event {
            Event::Message(_, read) => Exchange {
                incoming: self.incoming.after(DeliveryStep::Hear(payload_in(read))),
                ..self
            },
            Event::Lost => Exchange {
                outgoing: self.outgoing.after(Step::Lose),
                incoming: self.incoming.after(DeliveryStep::End),
            },
            Event::Send(msg) => Exchange { outgoing: self.outgoing.after(Step::Send(msg)), ..self },
            Event::Shutdown => Exchange { outgoing: self.outgoing.after(Step::Shutdown), ..self },
            Event::Turn => {
                let outgoing = self.outgoing.turn();
                let incoming = if outgoing.ended {
                    self.incoming.after(DeliveryStep::End)
                } else {
                    self.incoming
                };
                Exchange { outgoing, incoming }
            },
            Event::Receive => Exchange {
                incoming: self.incoming.after(DeliveryStep::Receive),
                ..self
            },
        }
    }

    /// The socket after a sequence of events.
    pub open spec fn run<M, E>(self, events: Seq<Event<M, E>>) -> Exchange
        decreases events.len(),
    {
        if events.len() == 0 {
            self
        } else {
            self.run(events.drop_last()).after(events.last())
        }
    }
}

/// Whatever happens to a socket, each direction stays consistent: messages are handled, and
/// received, in the order in which they were sent, and none is left behind by an orderly end.
pub proof fn law_exchange_consistent<M, E>(events: Seq<Event<M, E>>)
    ensures
        Exchange::start().run(events).outgoing.consistent(),
        Exchange::start().run(events).incoming.consistent(),
    decreases events.len(),
{
    if events.len() == 0 {
        assert(Seq::<Payload>::empty() =~= Seq::<Payload>::empty() + Seq::<Payload>::empty());
    } else {
        law_exchange_consistent(events.drop_last());
        let before = Exchange::start().run(events.drop_last());
        match events.last() {
            Event::Message(_, read) => {
                law_delivery_consistent(before.incoming, DeliveryStep::Hear(payload_in(read)));
            },
            Event::Lost => {
                law_step_consistent(before.outgoing, Step::Lose);
                law_delivery_consistent(before.incoming, DeliveryStep::End);
            },
            Event::Send(msg) => law_step_consistent(before.outgoing, Step::Send(msg)),
            Event::Shutdown => law_step_consistent(before.outgoing, Step::Shutdown),
            Event::Turn => {
                law_step_consistent(before.outgoing, step_of(before.outgoing.next_message()));
                law_delivery_consistent(before.incoming, DeliveryStep::End);
            },
            Event::Receive => law_delivery_consistent(before.incoming, DeliveryStep::Receive),
        }
    }
}

/// When the peer is gone, what it sent before still comes out of the socket in order, and then it
/// is received that there is no more. From then on nothing that is sent on the socket is taken, and
/// the task does not close the connection.
pub proof fn law_peer_gone<M, E>(events: Seq<Event<M, E>>, steps: Seq<Step<Payload>>)
    requires
        !Exchange::start().run(events).outgoing.over(),
        !Exchange::start().run(events).incoming.finished,
    ensures
        ({
            let before = Exchange::start().run(events);
            let gone = before.after(Event::<M, E>::Lost);
            let waiting = before.incoming.queued.len();
            &&& gone.incoming.receives(waiting).received == before.incoming.delivered
            &&& !gone.incoming.receives(waiting).finished
            &&& gone.incoming.receives(waiting + 1).received == before.incoming.delivered
            &&& gone.incoming.receives(waiting + 1).finished
            &&& gone.outgoing.run(steps).accepted == before.outgoing.accepted
            &&& !gone.outgoing.run(steps).open
            &&& !gone.outgoing.run(steps).ended
        }),
{
    let before = Exchange::start().run(events);
    law_exchange_consistent(events);
    law_received_after_end(before.incoming, before.incoming.queued.len());
    law_lost_is_final(before.outgoing, steps);
    assert(before.incoming.queued.take(before.incoming.queued.len() as int)
        =~= before.incoming.queued);
}

/// Whether two events are the same but for the kind of connection.
pub open spec fn same_event<E>(
    accepted: Event<Message, E>,
    opened: Event<tungstenite::Message, E>,
) -> bool {
    match (accepted, opened) {
        (Event::Message(a, read_a), Event::Message(b, read_b)) => {
            same_message(a, b) && read_a == read_b
        },
        (Event::Lost, Event::Lost) => true,
        (Event::Send(a), Event::Send(b)) => a == b,
        (Event::Shutdown, Event::Shutdown) => true,
        (Event::Turn, Event::Turn) => true,
        (Event::Receive, Event::Receive) => true,
        _ => false,
    }
}

/// The two kinds of socket agree: the same events can happen to both, and both receive the same
/// messages, handle the same messages for the peer, refuse the same, and end or are lost alike.
pub proof fn law_sockets_agree<B, E, F>(
    accepted: Seq<Event<Message, E>>,
    opened: Seq<Event<tungstenite::Message, E>>,
    schema: SocketSchema<B>,
    decode: F,
) where F: FnOnce(&B, &[u8]) -> Result<JSONPayload, E>
    requires
        accepted.len() == opened.len(),
        forall|i: int|
            0 <= i < accepted.len() ==> same_event(#[trigger] accepted[i], #[trigger] opened[i]),
    ensures
        forall|i: int|
            0 <= i < accepted.len() ==> ((#[trigger] accepted[i]).possible(schema, decode)
                <==> (#[trigger] opened[i]).possible(schema, decode)),
        Exchange::start().run(accepted) == Exchange::start().run(opened),
    decreases accepted.len(),
{
    if accepted.len() > 0 {
        let last = accepted.len() - 1;
        assert(same_event(accepted[last], opened[last]));
        let (earlier_a, earlier_b) = (accepted.drop_last(), opened.drop_last());
        assert forall|i: int| 0 <= i < earlier_a.len() implies same_event(
            #[trigger] earlier_a[i],
            #[trigger] earlier_b[i],
        ) by {
            assert(same_event(accepted[i], opened[i]));
        }
        law_sockets_agree(earlier_a, earlier_b, schema, decode);
    }
}

} // verus!
