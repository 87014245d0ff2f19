//! How contracts speak of calls on channels, and the sending ends that record what goes through.
//!
//! `call_ensures(f, args, result)` holds of a function, its arguments and a result that the
//! function may give for them, and a caller knows it only of calls that it made. So a contract can
//! say which call was made and what came of it, though nothing is promised of the call itself. Such
//! a contract names a call that was made and never excludes another one: through a shared handle
//! more could be sent or signalled than it names.
//!
//! Two things exclude it. Where a sending end has one owner, [`Outbox`] says what the channel has
//! taken through it, and [`Courier`] says so of one use of a shared end. And the functions that
//! hold a shared handle leave open, as type parameters, what goes through it: they can pass on the
//! messages that they were given, each once, and can make up neither a message nor a signal.
use tokio::sync::mpsc::error::SendError;
use tokio::sync::mpsc::{unbounded_channel, UnboundedReceiver, UnboundedSender};
use tokio::sync::{watch, Mutex};
use vstd::prelude::*;

use crate::error::ChannelClosed;

verus! {

/// Whether `sender` and `receiver` are the two ends that one channel was made with.
pub open spec fn connected<T>(sender: UnboundedSender<T>, receiver: UnboundedReceiver<T>) -> bool {
    call_ensures(unbounded_channel::<T>, (), (sender, receiver))
}

/// Whether `lock` was made around `value`.
pub open spec fn guards<T>(lock: Mutex<T>, value: T) -> bool {
    call_ensures(<Mutex<T> as From<T>>::from, (value,), lock)
}

/// Whether `lock` was made around the receiving end of the channel of `sender`.
pub open spec fn feeds<T>(sender: UnboundedSender<T>, lock: Mutex<UnboundedReceiver<T>>) -> bool {
    exists|receiver: UnboundedReceiver<T>| #[trigger]
        connected(sender, receiver) && guards(lock, receiver)
}

/// Whether `sender` and `receiver` are the two ends of one watch channel, made with `init`.
pub open spec fn watches<T>(
    sender: watch::Sender<T>,
    receiver: watch::Receiver<T>,
    init: T,
) -> bool {
    call_ensures(watch::channel::<T>, (init,), (sender, receiver))
}

/// Whether `outcome` is what became of sending `message` on `sender`.
pub open spec fn sends<T>(
    sender: UnboundedSender<T>,
    message: T,
    outcome: Result<(), ChannelClosed<T>>,
) -> bool {
    match outcome {
        Ok(()) => call_ensures(UnboundedSender::<T>::send, (&sender, message), Ok(())),
        Err(closed) => {
            &&& closed.0 == message
            &&& call_ensures(
                UnboundedSender::<T>::send,
                (&sender, message),
                Err(SendError(message)),
            )
        },
    }
}

/// Whether `outcome` is what became of setting `value` on `sender`.
pub open spec fn signals<T>(
    sender: watch::Sender<T>,
    value: T,
    outcome: Result<(), ChannelClosed<T>>,
) -> bool {
    match outcome {
        Ok(()) => call_ensures(watch::Sender::<T>::send, (&sender, value), Ok(())),
        Err(closed) => {
            &&& closed.0 == value
            &&& call_ensures(
                watch::Sender::<T>::send,
                (&sender, value),
                Err(watch::error::SendError(value)),
            )
        },
    }
}

/// Whether `value` was set on `sender`, whatever became of it.
pub open spec fn signalled<T>(sender: watch::Sender<T>, value: T) -> bool {
    exists|outcome: Result<(), ChannelClosed<T>>| #[trigger] signals(sender, value, outcome)
}

/// Puts `message` into the channel of `sender`, or hands it back where the channel is closed.
pub fn send_on<T>(sender: &UnboundedSender<T>, message: T) -> (outcome: Result<
    (),
    ChannelClosed<T>,
>)
    ensures
        sends(*sender, message, outcome),
{
    match sender.send(message) {
        Ok(unit) => {
            assert(unit == ());
            Ok(unit)
        },
        Err(refused) => {
            assert(refused == SendError(message));
            Err(ChannelClosed(refused.0))
        },
    }
}

/// Sets `value` on `sender`, or hands it back where nobody waits for it any more.
pub fn signal_on<T>(sender: &watch::Sender<T>, value: T) -> (outcome: Result<(), ChannelClosed<T>>)
    ensures
        signals(*sender, value, outcome),
{
    match sender.send(value) {
        Ok(unit) => {
            assert(unit == ());
            Ok(unit)
        },
        Err(refused) => {
            assert(refused == watch::error::SendError(value));
            Err(ChannelClosed(refused.0))
        },
    }
}

/// A sending end with a single owner, and a record of what the channel has taken through it. The
/// end itself can be reached only by [`Outbox::send`], so nothing goes out past the record.
#[verifier::reject_recursive_types(T)]
pub struct Outbox<T> {
    tx: UnboundedSender<T>,
    taken: Ghost<Seq<T>>,
}

impl<T> Outbox<T> {
    /// The sending end.
    pub closed spec fn sender(self) -> UnboundedSender<T> {
        self.tx
    }

    /// The messages that the channel has taken through this end, in order.
    pub closed spec fn taken(self) -> Seq<T> {
        self.taken@
    }

    /// Takes over a sending end.
    pub fn new(tx: UnboundedSender<T>) -> (outbox: Outbox<T>)
        ensures
            outbox.sender() == tx,
            outbox.taken() == Seq::<T>::empty(),
    {
        Outbox { tx, taken: Ghost(Seq::empty()) }
    }

    /// Puts `message` into the channel, or hands it back where the channel is closed.
    pub fn send(&mut self, message: T) -> (outcome: Result<(), ChannelClosed<T>>)
        ensures
            final(self).sender() == old(self).sender(),
            sends(old(self).sender(), message, outcome),
            final(self).taken() == match outcome {
                Ok(()) => old(self).taken().push(message),
                Err(_) => old(self).taken(),
            },
    {
        let outcome = send_on(&self.tx, message);
        if outcome.is_ok() {
            self.taken = Ghost(self.taken@.push(message));
        }
        outcome
    }

    /// Gives the sending end away, with the record closed.
    pub fn into_sender(self) -> (tx: UnboundedSender<T>)
        ensures
            tx == self.sender(),
    {
        self.tx
    }
}

/// Whether `tx` was given away by an owner through which the channel had taken `taken`.
pub open spec fn given_away<T>(tx: UnboundedSender<T>, taken: Seq<T>) -> bool {
    exists|outbox: Outbox<T>| #[trigger]
        call_ensures(Outbox::<T>::into_sender, (outbox,), tx) && outbox.taken() == taken
}

/// A sending end that is lent for one use, and a record of what the channel has taken through the
/// loan.
#[verifier::reject_recursive_types(T)]
pub struct Courier<'a, T> {
    tx: &'a UnboundedSender<T>,
    taken: Ghost<Seq<T>>,
}

impl<'a, T> Courier<'a, T> {
    /// The sending end.
    pub closed spec fn sender(self) -> UnboundedSender<T> {
        *self.tx
    }

    /// The messages that the channel has taken through this loan, in order.
    pub closed spec fn taken(self) -> Seq<T> {
        self.taken@
    }

    /// Borrows a sending end.
    pub fn new(tx: &'a UnboundedSender<T>) -> (courier: Courier<'a, T>)
        ensures
            courier.sender() == *tx,
            courier.taken() == Seq::<T>::empty(),
    {
        Courier { tx, taken: Ghost(Seq::empty()) }
    }

    /// Puts `message` into the channel, or hands it back where the channel is closed.
    pub fn send(&mut self, message: T) -> (outcome: Result<(), ChannelClosed<T>>)
        ensures
            final(self).sender() == old(self).sender(),
            sends(old(self).sender(), message, outcome),
            final(self).taken() == match outcome {
                Ok(()) => old(self).taken().push(message),
                Err(_) => old(self).taken(),
            },
    {
        let outcome = send_on(self.tx, message);
        if outcome.is_ok() {
            self.taken = Ghost(self.taken@.push(message));
        }
        outcome
    }
}

} // verus!
