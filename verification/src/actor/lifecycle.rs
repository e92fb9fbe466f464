//! The life of one actor: its mailbox and the loop that empties it.
//!
//! Whatever is sent to an actor waits in its mailbox in the order in which
//! it was sent. The loop takes one invocation at a time and takes the next
//! only when the handler of the last has returned. A request to stop is an
//! invocation like any other: it takes effect when its turn has come.
use crate::actor::context::ActorStatus;
use crate::actor::{ActorId, ActorRefErr};
use std::collections::VecDeque;
use vstd::prelude::*;

verus! {

/// What waits in a mailbox.
pub enum Invocation<M> {
    /// A message for the actor to handle.
    Message(M),
    /// A request to stop, whose sender waits until the actor has stopped.
    Stop,
    /// A request to stop that nobody waits for.
    NotifyStop,
    /// The news that a child has terminated.
    ChildTerminated(ActorId),
}

/// What the loop does next.
pub enum Delivery<M> {
    /// Run the handler of this message to its end.
    Handle(M),
    /// Take the child out of the supervised children.
    RemoveChild(ActorId),
    /// Leave the loop: run the actor's `stopped`, then end its context.
    /// `acknowledge` says whether the sender of the request waits.
    Stop { acknowledge: bool },
    /// The mailbox is empty: wait for the next invocation.
    Idle,
    /// A handler is still running: nothing is taken from the mailbox.
    Busy,
    /// The loop is not running.
    Finished,
}

/// The state of a loop as a mathematical value.
pub struct LoopState<M> {
    pub status: ActorStatus,
    pub queue: Seq<Invocation<M>>,
    pub running: bool,
}

impl<M> LoopState<M> {
    /// The state after `invocation` was sent: it waits behind everything
    /// that was sent before, unless the actor has stopped.
    pub open spec fn sent(self, invocation: Invocation<M>) -> LoopState<M> {
        if self.status == ActorStatus::Stopped {
            self
        } else {
            LoopState { queue: self.queue.push(invocation), ..self }
        }
    }

    /// The state after one turn of the loop.
    pub open spec fn turned(self) -> LoopState<M> {
        if self.running || self.status != ActorStatus::Started || self.queue.len() == 0 {
            self
        } else {
            match self.queue.first() {
                Invocation::Message(_) => LoopState {
                    queue: self.queue.drop_first(),
                    running: true,
                    ..self
                },
                Invocation::ChildTerminated(_) => LoopState {
                    queue: self.queue.drop_first(),
                    ..self
                },
                _ => LoopState {
                    status: ActorStatus::Stopping,
                    queue: self.queue.drop_first(),
                    ..self
                },
            }
        }
    }

    /// What one turn of the loop delivers.
    pub open spec fn delivery(self) -> Delivery<M> {
        if self.running {
            Delivery::Busy
        } else if self.status != ActorStatus::Started {
            Delivery::Finished
        } else if self.queue.len() == 0 {
            Delivery::Idle
        } else {
            match self.queue.first() {
                Invocation::Message(m) => Delivery::Handle(m),
                Invocation::ChildTerminated(id) => Delivery::RemoveChild(id),
                Invocation::Stop => Delivery::Stop { acknowledge: true },
                Invocation::NotifyStop => Delivery::Stop { acknowledge: false },
            }
        }
    }

    /// The state after the running handler has returned.
    pub open spec fn finished(self) -> LoopState<M> {
        LoopState { running: false, ..self }
    }

    /// What the `n`-th turn from here delivers, each handler returning
    /// before the next turn.
    pub open spec fn nth_delivery(self, n: nat) -> Delivery<M>
        decreases n,
    {
        if n == 0 {
            self.delivery()
        } else {
            self.turned().finished().nth_delivery((n - 1) as nat)
        }
    }
}

/// The loop of one actor with its mailbox.
pub struct ActorLoop<M> {
    status: ActorStatus,
    queue: VecDeque<Invocation<M>>,
    running: bool,
}

impl<M> View for ActorLoop<M> {
    type V = LoopState<M>;

    closed spec fn view(&self) -> LoopState<M> {
        LoopState { status: self.status, queue: self.queue@, running: self.running }
    }
}

impl<M> ActorLoop<M> {
    /// The loop of an actor that is about to start, with an empty mailbox.
    pub fn new() -> (actor_loop: ActorLoop<M>)
        ensures
            actor_loop@ == (LoopState::<M> {
                status: ActorStatus::Starting,
                queue: Seq::empty(),
                running: false,
            }),
    {
        ActorLoop { status: ActorStatus::Starting, queue: VecDeque::new(), running: false }
    }

    /// The status of the actor.
    pub fn status(&self) -> (status: ActorStatus)
        ensures
            status == self@.status,
    {
        self.status
    }

    /// How many invocations wait.
    pub fn waiting(&self) -> (n: usize)
        ensures
            n == self@.queue.len(),
    {
        self.queue.len()
    }

    /// Puts an invocation into the mailbox. The mailbox of an actor that
    /// has stopped takes nothing.
    pub fn send(&mut self, invocation: Invocation<M>) -> (sent: Result<(), ActorRefErr>)
        ensures
            final(self)@ == old(self)@.sent(invocation),
            sent == if old(self)@.status == ActorStatus::Stopped {
                Err(ActorRefErr::ActorUnavailable)
            } else {
                Ok(())
            },
    {
        if self.status == ActorStatus::Stopped {
            return Err(ActorRefErr::ActorUnavailable);
        }
        self.queue.push_back(invocation);
        Ok(())
    }

    /// Notes how the actor's `started` went: the loop runs where it went
    /// well; else the actor is stopped at once, and what waited for it is
    /// handed back undelivered.
    pub fn on_started(&mut self, ok: bool) -> (dropped: Vec<Invocation<M>>)
        requires
            old(self)@.status == ActorStatus::Starting,
        ensures
            ok ==> final(self)@ == (LoopState { status: ActorStatus::Started, ..old(self)@ })
                && dropped@.len() == 0,
            !ok ==> final(self)@ == (LoopState::<M> {
                status: ActorStatus::Stopped,
                queue: Seq::empty(),
                running: false,
            }) && dropped@ == old(self)@.queue,
    {
        if ok {
            self.status = ActorStatus::Started;
            Vec::new()
        } else {
            self.status = ActorStatus::Stopped;
            self.running = false;
            self.drain()
        }
    }

    /// Empties the mailbox.
    fn drain(&mut self) -> (dropped: Vec<Invocation<M>>)
        ensures
            dropped@ == old(self)@.queue,
            final(self)@ == (LoopState { queue: Seq::empty(), ..old(self)@ }),
    {
        let ghost all = self.queue@;
        let mut dropped: Vec<Invocation<M>> = Vec::new();
        while self.queue.len() > 0
            invariant
                self.status == old(self).status,
                self.running == old(self).running,
                dropped@ + self.queue@ == all,
            decreases self.queue.len(),
        {
            let ghost left = self.queue@;
            let ghost taken = dropped@;
            let next = self.queue.pop_front();
            match next {
                Some(invocation) => {
                    dropped.push(invocation);
                    proof {
                        assert(left == seq![invocation] + self.queue@);
                        assert(dropped@ + self.queue@ =~= taken + left);
                    }
                },
                None => {},
            }
        }
        proof {
            assert(dropped@ =~= dropped@ + self.queue@);
            assert(self.queue@ =~= Seq::<Invocation<M>>::empty());
        }
        dropped
    }

    /// One turn of the loop: takes the invocation that has waited longest,
    /// unless a handler is still running or the loop is not running.
    pub fn next(&mut self) -> (delivery: Delivery<M>)
        ensures
            delivery == old(self)@.delivery(),
            final(self)@ == old(self)@.turned(),
    {
        if self.running {
            return Delivery::Busy;
        }
        if self.status != ActorStatus::Started {
            return Delivery::Finished;
        }
        let ghost before = self.queue@;
        match self.queue.pop_front() {
            None => Delivery::Idle,
            Some(invocation) => {
                proof {
                    assert(self.queue@ =~= before.drop_first());
                }
                match invocation {
                    Invocation::Message(m) => {
                        self.running = true;
                        Delivery::Handle(m)
                    },
                    Invocation::ChildTerminated(id) => Delivery::RemoveChild(id),
                    Invocation::Stop => {
                        self.status = ActorStatus::Stopping;
                        Delivery::Stop { acknowledge: true }
                    },
                    Invocation::NotifyStop => {
                        self.status = ActorStatus::Stopping;
                        Delivery::Stop { acknowledge: false }
                    },
                }
            },
        }
    }

    /// Notes that the running handler has returned.
    pub fn handled(&mut self)
        ensures
            final(self)@ == old(self)@.finished(),
    {
        self.running = false;
    }

    /// Notes that the actor's `stopped` has run: the actor is stopped, and
    /// what still waited for it is handed back undelivered, so that those
    /// who wait for an answer learn that none will come.
    pub fn on_stopped(&mut self) -> (dropped: Vec<Invocation<M>>)
        ensures
            final(self)@ == (LoopState::<M> {
                status: ActorStatus::Stopped,
                queue: Seq::empty(),
                running: false,
            }),
            dropped@ == old(self)@.queue,
    {
        self.status = ActorStatus::Stopped;
        self.running = false;
        self.drain()
    }
}

/// Handlers of one actor never overlap: while one runs, a turn of the loop
/// delivers nothing and changes nothing; and a turn that starts a handler
/// finds none running and leaves one running.
pub proof fn handlers_never_overlap<M>(state: LoopState<M>)
    ensures
        state.running ==> state.delivery() is Busy && state.turned() == state,
        state.delivery() is Handle ==> !state.running && state.turned().running
            && state.turned().delivery() is Busy,
{
}

/// Sending puts an invocation behind all that were sent before it.
pub proof fn sending_appends<M>(state: LoopState<M>, first: Invocation<M>, second: Invocation<M>)
    requires
        state.status != ActorStatus::Stopped,
    ensures
        state.sent(first).sent(second).queue == state.queue.push(first).push(second),
{
}

/// Messages are handled in the order in which they were sent: as long as
/// only messages wait, the `k`-th turn of a running loop handles the
/// `k`-th message in the mailbox.
pub proof fn messages_are_handled_in_send_order<M>(state: LoopState<M>, k: nat)
    requires
        state.status == ActorStatus::Started,
        !state.running,
        k < state.queue.len(),
        forall|i: int| 0 <= i <= k ==> (#[trigger] state.queue[i]) is Message,
    ensures
        state.nth_delivery(k) == Delivery::Handle(state.queue[k as int]->Message_0),
    decreases k,
{
    if k > 0 {
        let next = state.turned().finished();
        assert(state.queue[0] is Message);
        assert(next.queue == state.queue.drop_first());
        assert forall|i: int| 0 <= i <= k - 1 implies (#[trigger] next.queue[i]) is Message by {
            assert(next.queue[i] == state.queue[i + 1]);
        }
        messages_are_handled_in_send_order(next, (k - 1) as nat);
        assert(next.queue[k - 1] == state.queue[k as int]);
    } else {
        assert(state.queue[0] is Message);
    }
}

} // verus!
