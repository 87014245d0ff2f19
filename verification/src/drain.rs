//! How a task ends: what was queued before a call to shut down still goes out.
//!
//! [`crate::websocket::SocketTask`] and [`crate::websocket_client::SendTask`] take messages from a
//! channel one by one. On a call to shut down they close the channel, and they close the
//! connection once the channel gives out `None`. The channel is one of tokio: it gives out messages
//! in the order in which they were sent, refuses messages once it is closed, and gives out `None`
//! only when it is closed and empty. [`Session`] is such a channel together with such a task. The
//! contracts of the tasks say which [`Step`] each of their turns is.
use vstd::prelude::*;

verus! {

/// A channel of messages to send, and what the task at its receiving end has done.
pub struct Session<T> {
    /// The messages that wait in the channel.
    pub queued: Seq<T>,
    /// Whether the channel takes messages.
    pub open: bool,
    /// The messages that the channel has taken.
    pub accepted: Seq<T>,
    /// The messages that the task has handled.
    pub handled: Seq<T>,
    /// Whether the task has closed the connection and ended.
    pub ended: bool,
    /// Whether the task has ended because the connection was lost.
    pub lost: bool,
}

/// Something that happens to a session.
pub enum Step<T> {
    /// A message is sent on the channel.
    Send(T),
    /// The task hears a call to shut down, or that every sender is gone.
    Shutdown,
    /// The task handles the message that the channel gave out, and goes on.
    Handle,
    /// The task heard from the channel that there is no more, closes the connection and ends.
    Close,
    /// The task ends without closing the connection.
    Lose,
}

/// What a task does about what its channel gave out.
pub open spec fn step_of<T>(taken: Option<T>) -> Step<T> {
    match taken {
        Some(_) => Step::Handle,
        None => Step::Close,
    }
}

impl<T> Session<T> {
    /// A session at its start.
    pub open spec fn start() -> Session<T> {
        Session {
            queued: Seq::empty(),
            open: true,
            accepted: Seq::empty(),
            handled: Seq::empty(),
            ended: false,
            lost: false,
        }
    }

    /// Whether the task is gone.
    pub open spec fn over(self) -> bool {
        self.ended || self.lost
    }

    /// Whether the channel gives out anything, rather than have the task wait.
    pub open spec fn ready(self) -> bool {
        self.queued.len() > 0 || !self.open
    }

    /// What the channel gives out when it is ready.
    pub open spec fn next_message(self) -> Option<T> {
        if self.queued.len() > 0 {
            Some(self.queued[0])
        } else {
            None
        }
    }

    /// The session after a step. A step that the task cannot take, for it is gone or the channel
    /// gives out something else, changes nothing.
    pub open spec fn after(self, step: Step<T>) -> Session<T> {
        match step {
            Step::Send(msg) => if self.open {
                Session {
                    queued: self.queued.push(msg),
                    accepted: self.accepted.push(msg),
                    ..self
                }
            } else {
                self
            },
            Step::Shutdown => Session { open: false, ..self },
            Step::Handle => if self.over() || self.queued.len() == 0 {
                self
            } else {
                Session {
                    queued: self.queued.drop_first(),
                    handled: self.handled.push(self.queued[0]),
                    ..self
                }
            },
            Step::Close => if self.over() || self.open || self.queued.len() > 0 {
                self
            } else {
                Session { ended: true, ..self }
            },
            Step::Lose => if self.over() {
                self
            } else {
                Session { open: false, lost: true, ..self }
            },
        }
    }

    /// The session after the task took what the channel gives out, if it gives out anything.
    pub open spec fn turn(self) -> Session<T> {
        if self.ready() {
            self.after(step_of(self.next_message()))
        } else {
            self
        }
    }

    /// The session after a number of turns.
    pub open spec fn turns(self, count: nat) -> Session<T>
        decreases count,
    {
        if count == 0 {
            self
        } else {
            self.turns((count - 1) as nat).turn()
        }
    }

    /// The session after a sequence of steps.
    pub open spec fn run(self, steps: Seq<Step<T>>) -> Session<T>
        decreases steps.len(),
    {
        if steps.len() == 0 {
            self
        } else {
            self.run(steps.drop_last()).after(steps.last())
        }
    }

    /// What holds of every session: the messages that were taken are those that were handled and
    /// those that wait, in order, and a task that ended left none behind and was not lost.
    pub open spec fn consistent(self) -> bool {
        &&& self.accepted == self.handled + self.queued
        &&& self.ended ==> !self.open && self.queued.len() == 0 && !self.lost
    }
}

/// Every step keeps a session consistent.
pub proof fn law_step_consistent<T>(session: Session<T>, step: Step<T>)
    requires
        session.consistent(),
    ensures
        session.after(step).consistent(),
{
    match step {
        Step::Send(msg) => {
            if session.open {
                assert(session.accepted.push(msg) =~= session.handled + session.queued.push(msg));
            }
        },
        Step::Handle => {
            if session.queued.len() > 0 {
                assert(session.handled + session.queued =~= session.handled.push(session.queued[0])
                    + session.queued.drop_first());
            }
        },
        Step::Shutdown | Step::Close | Step::Lose => {},
    }
}

/// Whatever happens, the task handles messages in the order in which they were sent: at every time
/// the messages that the channel took are those that the task handled and then those that wait.
pub proof fn law_in_order<T>(steps: Seq<Step<T>>)
    ensures
        Session::start().run(steps).consistent(),
    decreases steps.len(),
{
    if steps.len() == 0 {
        assert(Seq::<T>::empty() =~= Seq::<T>::empty() + Seq::<T>::empty());
    } else {
        law_in_order(steps.drop_last());
        law_step_consistent(Session::start().run(steps.drop_last()), steps.last());
    }
}

/// A task that closes the connection has handled every message that its channel ever took, in the
/// order in which they were sent.
pub proof fn law_close_after_drain<T>(steps: Seq<Step<T>>)
    requires
        Session::start().run(steps).ended,
    ensures
        Session::start().run(steps).handled == Session::start().run(steps).accepted,
{
    law_in_order(steps);
    let session = Session::<T>::start().run(steps);
    assert(session.handled + session.queued =~= session.handled);
}

/// Once a task has heard a call to shut down, no more messages are taken, whatever happens.
pub proof fn law_shutdown_refuses<T>(session: Session<T>, steps: Seq<Step<T>>)
    ensures
        session.after(Step::Shutdown).run(steps).accepted == session.accepted,
        !session.after(Step::Shutdown).run(steps).open,
    decreases steps.len(),
{
    if steps.len() > 0 {
        law_shutdown_refuses(session, steps.drop_last());
    }
}

/// A task that has heard a call to shut down ends after one turn for each message that waits and
/// one more, with every message handled.
pub proof fn law_shutdown_completes<T>(session: Session<T>)
    requires
        session.consistent(),
        !session.over(),
    ensures
        session.after(Step::Shutdown).turns(session.queued.len() + 1).ended,
        session.after(Step::Shutdown).turns(session.queued.len() + 1).handled == session.accepted,
{
    lemma_turns(session.after(Step::Shutdown), session.queued.len());
}

/// Once the connection is lost, no more messages are taken, none is handled, and the task never
/// closes the connection, whatever happens.
pub proof fn law_lost_is_final<T>(session: Session<T>, steps: Seq<Step<T>>)
    requires
        !session.over(),
    ensures
        session.after(Step::Lose).run(steps).accepted == session.accepted,
        session.after(Step::Lose).run(steps).handled == session.handled,
        session.after(Step::Lose).run(steps).lost,
        !session.after(Step::Lose).run(steps).ended,
        !session.after(Step::Lose).run(steps).open,
    decreases steps.len(),
{
    if steps.len() > 0 {
        law_lost_is_final(session, steps.drop_last());
    }
}

/// Once a task has closed the connection, no more messages are taken, none is handled, and the
/// connection is not lost any more, whatever happens.
pub proof fn law_end_is_final<T>(session: Session<T>, steps: Seq<Step<T>>)
    requires
        session.consistent(),
        session.ended,
    ensures
        session.run(steps).ended,
        !session.run(steps).lost,
        !session.run(steps).open,
        session.run(steps).accepted == session.accepted,
        session.run(steps).handled == session.handled,
    decreases steps.len(),
{
    if steps.len() > 0 {
        law_end_is_final(session, steps.drop_last());
    }
}

/// Turns handle the messages that wait from the first on.
proof fn lemma_turns<T>(session: Session<T>, count: nat)
    requires
        session.consistent(),
        !session.open,
        !session.over(),
        count <= session.queued.len(),
    ensures
        ({
            let later = session.turns(count);
            &&& later.queued == session.queued.skip(count as int)
            &&& later.handled == session.handled + session.queued.take(count as int)
            &&& later.accepted == session.accepted
            &&& !later.open
            &&& !later.over()
            &&& count == session.queued.len() ==> later.handled == session.accepted
        }),
    decreases count,
{
    if count == 0 {
        assert(session.queued.skip(0) =~= session.queued);
        assert(session.handled + session.queued.take(0) =~= session.handled);
    } else {
        let before = (count - 1) as nat;
        lemma_turns(session, before);
        assert(session.queued.skip(before as int).drop_first() =~= session.queued.skip(
            count as int,
        ));
        assert((session.handled + session.queued.take(before as int)).push(
            session.queued[before as int],
        ) =~= session.handled + session.queued.take(count as int));
    }
    if count == session.queued.len() {
        assert(session.queued.take(count as int) =~= session.queued);
    }
}

} // verus!
