//! What is received: the messages that a task handed on, in order, and then the end.
//!
//! [`crate::websocket::SocketTask`] and [`crate::websocket_client::ReceiveTask`] put what they hear
//! from the connection into a channel, and drop its sending end when they end. The channel is one
//! of tokio: it gives out messages in the order in which they were sent, and gives out `None` only
//! when its sending end is gone and it is empty. [`Delivery`] is such a channel together with such
//! a task and a receiver that is kept. The contracts of the tasks say what each turn puts into the
//! channel, by [`log_after`].
use vstd::prelude::*;

verus! {

/// What a channel has taken after a task heard something, where `heard` is the message in it, if
/// there is one.
pub open spec fn log_after<T>(log: Seq<T>, heard: Option<T>) -> Seq<T> {
    match heard {
        Some(msg) => log.push(msg),
        None => log,
    }
}

/// The messages in what was heard, in order.
pub open spec fn messages<T>(heard: Seq<Option<T>>) -> Seq<T> {
    heard.filter(|h: Option<T>| h is Some).map_values(|h: Option<T>| h->Some_0)
}

/// A channel of messages that a task hands on, and what came out of it.
pub struct Delivery<T> {
    /// The messages that the channel has taken.
    pub delivered: Seq<T>,
    /// The messages that wait in the channel.
    pub queued: Seq<T>,
    /// The messages that were received.
    pub received: Seq<T>,
    /// Whether the task has ended.
    pub ended: bool,
    /// Whether it was received that there is no more.
    pub finished: bool,
}

/// Something that happens to a delivery.
pub enum DeliveryStep<T> {
    /// The task hears something from the connection, with a message in it or without, and goes on.
    Hear(Option<T>),
    /// The task ends.
    End,
    /// The next message is received, if the channel gives out anything.
    Receive,
}

impl<T> Delivery<T> {
    /// A delivery at its start.
    pub open spec fn start() -> Delivery<T> {
        Delivery {
            delivered: Seq::empty(),
            queued: Seq::empty(),
            received: Seq::empty(),
            ended: false,
            finished: false,
        }
    }

    /// The delivery after a step.
    pub open spec fn after(self, step: DeliveryStep<T>) -> Delivery<T> {
        match step {
            DeliveryStep::Hear(heard) => if self.ended {
                self
            } else {
                Delivery {
                    delivered: log_after(self.delivered, heard),
                    queued: log_after(self.queued, heard),
                    ..self
                }
            },
            DeliveryStep::End => Delivery { ended: true, ..self },
            DeliveryStep::Receive => if self.queued.len() > 0 {
                Delivery {
                    queued: self.queued.drop_first(),
                    received: self.received.push(self.queued[0]),
                    ..self
                }
            } else {
                Delivery { finished: self.ended, ..self }
            },
        }
    }

    /// The delivery after a sequence of steps.
    pub open spec fn run(self, steps: Seq<DeliveryStep<T>>) -> Delivery<T>
        decreases steps.len(),
    {
        if steps.len() == 0 {
            self
        } else {
            self.run(steps.drop_last()).after(steps.last())
        }
    }

    /// The delivery after a number of messages were asked for.
    pub open spec fn receives(self, count: nat) -> Delivery<T>
        decreases count,
    {
        if count == 0 {
            self
        } else {
            self.receives((count - 1) as nat).after(DeliveryStep::Receive)
        }
    }

    /// What holds of every delivery: the messages that were handed on are those that were received
    /// and those that wait, in order, and the end comes last.
    pub open spec fn consistent(self) -> bool {
        &&& self.delivered == self.received + self.queued
        &&& self.finished ==> self.ended && self.queued.len() == 0
    }
}

/// What the task heard before it ended.
pub open spec fn heard_in<T>(steps: Seq<DeliveryStep<T>>) -> Seq<Option<T>>
    decreases steps.len(),
{
    if steps.len() == 0 {
        Seq::empty()
    } else {
        let earlier = heard_in(steps.drop_last());
        match steps.last() {
            DeliveryStep::Hear(heard) if !has_end(steps.drop_last()) => earlier.push(heard),
            _ => earlier,
        }
    }
}

/// Whether the task ends in these steps.
pub open spec fn has_end<T>(steps: Seq<DeliveryStep<T>>) -> bool {
    exists|i: int| 0 <= i < steps.len() && (#[trigger] steps[i]) is End
}

/// Every step keeps a delivery consistent.
pub proof fn law_delivery_consistent<T>(delivery: Delivery<T>, step: DeliveryStep<T>)
    requires
        delivery.consistent(),
    ensures
        delivery.after(step).consistent(),
{
    match step {
        DeliveryStep::Hear(Some(msg)) => {
            assert(delivery.delivered.push(msg) =~= delivery.received + delivery.queued.push(msg));
        },
        DeliveryStep::Receive => {
            if delivery.queued.len() > 0 {
                assert(delivery.received + delivery.queued =~= delivery.received.push(
                    delivery.queued[0],
                ) + delivery.queued.drop_first());
            }
        },
        _ => {},
    }
}

/// Whatever happens, what is received is what was handed on, in order and from the first on.
pub proof fn law_received_in_order<T>(steps: Seq<DeliveryStep<T>>)
    ensures
        Delivery::start().run(steps).consistent(),
    decreases steps.len(),
{
    if steps.len() == 0 {
        assert(Seq::<T>::empty() =~= Seq::<T>::empty() + Seq::<T>::empty());
    } else {
        law_received_in_order(steps.drop_last());
        law_delivery_consistent(Delivery::start().run(steps.drop_last()), steps.last());
    }
}

/// What is handed on is exactly the messages in what the task heard before it ended, in order: what
/// holds no message is passed over, and nothing is added.
pub proof fn law_delivers_exactly<T>(steps: Seq<DeliveryStep<T>>)
    ensures
        Delivery::start().run(steps).delivered == messages(heard_in(steps)),
        Delivery::<T>::start().run(steps).ended == has_end(steps),
    decreases steps.len(),
{
    if steps.len() == 0 {
        lemma_messages_empty(Seq::<Option<T>>::empty());
    } else {
        let earlier = steps.drop_last();
        law_delivers_exactly(earlier);
        if has_end(earlier) {
            let i = choose|i: int| 0 <= i < earlier.len() && (#[trigger] earlier[i]) is End;
            assert(steps[i] is End);
        }
        if has_end(steps) && !has_end(earlier) {
            let i = choose|i: int| 0 <= i < steps.len() && (#[trigger] steps[i]) is End;
            if i < earlier.len() {
                assert(earlier[i] is End);
            }
        }
        if steps.last() is End {
            assert(steps[steps.len() - 1] is End);
        }
        match steps.last() {
            DeliveryStep::Hear(heard) => lemma_messages_push(heard_in(earlier), heard),
            _ => {},
        }
    }
}

/// Who receives that there is no more has received every message in what the task heard, in order.
pub proof fn law_end_comes_last<T>(steps: Seq<DeliveryStep<T>>)
    requires
        Delivery::<T>::start().run(steps).finished,
    ensures
        Delivery::start().run(steps).received == messages(heard_in(steps)),
        has_end(steps),
{
    law_received_in_order(steps);
    law_delivers_exactly(steps);
    let delivery = Delivery::<T>::start().run(steps);
    assert(delivery.received + delivery.queued =~= delivery.received);
}

/// What was handed on before the task ended still comes out, message by message, and only then is
/// it received that there is no more.
pub proof fn law_received_after_end<T>(delivery: Delivery<T>, count: nat)
    requires
        delivery.consistent(),
        !delivery.finished,
        count <= delivery.queued.len(),
    ensures
        ({
            let later = delivery.after(DeliveryStep::End).receives(count);
            &&& later.received == delivery.received + delivery.queued.take(count as int)
            &&& later.queued == delivery.queued.skip(count as int)
            &&& later.delivered == delivery.delivered
            &&& later.ended
            &&& !later.finished
        }),
        count == delivery.queued.len() ==> ({
            let last = delivery.after(DeliveryStep::End).receives(count + 1);
            last.finished && last.received == delivery.delivered
        }),
    decreases count,
{
    let ended = delivery.after(DeliveryStep::End);
    if count == 0 {
        assert(delivery.queued.skip(0) =~= delivery.queued);
        assert(delivery.received + delivery.queued.take(0) =~= delivery.received);
    } else {
        let before = (count - 1) as nat;
        law_received_after_end(delivery, before);
        assert(delivery.queued.skip(before as int).drop_first() =~= delivery.queued.skip(
            count as int,
        ));
        assert((delivery.received + delivery.queued.take(before as int)).push(
            delivery.queued[before as int],
        ) =~= delivery.received + delivery.queued.take(count as int));
    }
    if count == delivery.queued.len() {
        assert(delivery.queued.take(count as int) =~= delivery.queued);
        assert(ended.receives(count + 1) == ended.receives(count).after(DeliveryStep::Receive));
    }
}

/// Once it was received that there is no more, that stays so, and nothing is handed on or received
/// any more, whatever happens.
pub proof fn law_finished_is_final<T>(delivery: Delivery<T>, steps: Seq<DeliveryStep<T>>)
    requires
        delivery.consistent(),
        delivery.finished,
    ensures
        delivery.run(steps).finished,
        delivery.run(steps).received == delivery.received,
        delivery.run(steps).delivered == delivery.delivered,
        delivery.run(steps).consistent(),
    decreases steps.len(),
{
    if steps.len() > 0 {
        law_finished_is_final(delivery, steps.drop_last());
        law_delivery_consistent(delivery.run(steps.drop_last()), steps.last());
    }
}

/// Where nothing was heard, there is no message.
pub proof fn lemma_messages_empty<T>(heard: Seq<Option<T>>)
    requires
        heard.len() == 0,
    ensures
        messages(heard) == Seq::<T>::empty(),
{
    reveal(Seq::filter);
    assert(messages(heard) =~= Seq::<T>::empty());
}

/// Hearing one more thing adds the message in it.
pub proof fn lemma_messages_push<T>(heard: Seq<Option<T>>, next: Option<T>)
    ensures
        messages(heard.push(next)) == log_after(messages(heard), next),
{
    reveal(Seq::filter);
    assert(heard.push(next).drop_last() =~= heard);
    assert(messages(heard.push(next)) =~= log_after(messages(heard), next));
}

} // verus!
