//! The state that an actor sees of itself while it handles a message.
use crate::actor::supervised::Supervised;
use crate::actor::system::SystemHandle;
use crate::actor::scheduler::start_actor;
use crate::actor::{Actor, ActorId, ActorRefErr, BoxedActorRef, LocalActorRef};
use vstd::prelude::*;

verus! {

/// Where an actor stands in its life.
#[derive(Clone, Copy, Debug, PartialEq, Eq, Structural)]
pub enum ActorStatus {
    Starting,
    Started,
    Stopping,
    Stopped,
}

/// The journal of an actor that persists its state.
#[derive(Debug)]
pub struct ActorPersistence {
    pub provider: String,
}

impl ActorPersistence {
    pub fn new(provider: String) -> (persistence: ActorPersistence)
        ensures
            persistence.provider == provider,
    {
        ActorPersistence { provider }
    }
}

/// What the end of a context says about the end of its actor.
#[derive(Clone, Copy, Debug, PartialEq, Eq, Structural)]
pub enum StopCause {
    /// The actor failed before it had started.
    PanickedWhileStarting,
    /// The actor was running and its system has shut down.
    SystemShutdown,
    /// The actor was running and nothing asked it to stop.
    Unexpected,
    /// The actor failed while it was stopping.
    PanickedWhileStopping,
    /// The actor had stopped in good order.
    Stopped,
}

/// What has to happen when a context goes away.
pub struct ContextEnd {
    /// The parent to tell that this child has terminated, with the child's
    /// identifier.
    pub notify_parent: Option<(BoxedActorRef, ActorId)>,
    /// The children that are left and must be stopped.
    pub stop_children: Option<Supervised>,
    /// How the actor ended.
    pub cause: StopCause,
}

/// The context of one actor.
pub struct ActorContext {
    status: ActorStatus,
    persistence: Option<ActorPersistence>,
    boxed_ref: BoxedActorRef,
    boxed_parent_ref: Option<BoxedActorRef>,
    supervised: Option<Supervised>,
    system: Option<SystemHandle>,
}

/// How an actor ended, read from the status it had and from whether it
/// ran in a system that has shut down.
pub open spec fn stop_cause(status: ActorStatus, in_system: bool, system_terminated: bool) -> StopCause {
    match status {
        ActorStatus::Starting => StopCause::PanickedWhileStarting,
        ActorStatus::Started => if in_system && system_terminated {
            StopCause::SystemShutdown
        } else {
            StopCause::Unexpected
        },
        ActorStatus::Stopping => StopCause::PanickedWhileStopping,
        ActorStatus::Stopped => StopCause::Stopped,
    }
}

impl ActorContext {
    /// The status of the actor.
    pub closed spec fn status(&self) -> ActorStatus {
        self.status
    }

    /// The reference to the actor itself.
    pub closed spec fn self_ref(&self) -> BoxedActorRef {
        self.boxed_ref
    }

    /// The reference to the parent, where the actor was spawned by another.
    pub closed spec fn parent(&self) -> Option<BoxedActorRef> {
        self.boxed_parent_ref
    }

    /// The children of the actor, once it has had any.
    pub closed spec fn supervised(&self) -> Option<Supervised> {
        self.supervised
    }

    /// The system that the actor runs in.
    pub closed spec fn spec_system(&self) -> Option<SystemHandle> {
        self.system
    }

    /// The journal of the actor.
    pub closed spec fn spec_persistence(&self) -> Option<ActorPersistence> {
        self.persistence
    }

    /// The children by identifier; none before the first was attached.
    pub open spec fn children(&self) -> Map<Seq<char>, BoxedActorRef> {
        match self.supervised() {
            Some(s) => s.children(),
            None => Map::empty(),
        }
    }

    pub fn new(system: Option<SystemHandle>, status: ActorStatus, boxed_ref: BoxedActorRef) -> (ctx:
        ActorContext)
        ensures
            ctx.status() == status,
            ctx.self_ref() == boxed_ref,
            ctx.spec_system() == system,
            ctx.parent().is_none(),
            ctx.supervised().is_none(),
            ctx.spec_persistence().is_none(),
    {
        ActorContext {
            boxed_ref,
            status,
            system,
            supervised: None,
            persistence: None,
            boxed_parent_ref: None,
        }
    }

    /// The identifier of the actor.
    pub fn id(&self) -> (id: &ActorId)
        ensures
            *id == self.self_ref().id,
    {
        self.boxed_ref.actor_id()
    }

    /// The system that the actor runs in.
    pub fn system(&self) -> (system: &SystemHandle)
        requires
            self.spec_system().is_some(),
        ensures
            Some(*system) == self.spec_system(),
    {
        self.system.as_ref().unwrap()
    }

    /// The system that the actor runs in, to change it.
    pub fn system_mut(&mut self) -> (system: &mut SystemHandle)
        requires
            old(self).spec_system().is_some(),
        ensures
            Some(*system) == old(self).spec_system(),
            final(self).spec_system() == Some(*final(system)),
            final(self).status() == old(self).status(),
            final(self).self_ref() == old(self).self_ref(),
            final(self).parent() == old(self).parent(),
            final(self).supervised() == old(self).supervised(),
            final(self).spec_persistence() == old(self).spec_persistence(),
    {
        self.system.as_mut().unwrap()
    }

    pub fn set_system(&mut self, system: SystemHandle)
        ensures
            final(self).spec_system() == Some(system),
            final(self).status() == old(self).status(),
            final(self).self_ref() == old(self).self_ref(),
            final(self).parent() == old(self).parent(),
            final(self).supervised() == old(self).supervised(),
            final(self).spec_persistence() == old(self).spec_persistence(),
    {
        self.system = Some(system);
    }

    pub fn set_status(&mut self, state: ActorStatus)
        ensures
            final(self).status() == state,
            final(self).spec_system() == old(self).spec_system(),
            final(self).self_ref() == old(self).self_ref(),
            final(self).parent() == old(self).parent(),
            final(self).supervised() == old(self).supervised(),
            final(self).spec_persistence() == old(self).spec_persistence(),
    {
        self.status = state
    }

    pub fn get_status(&self) -> (status: &ActorStatus)
        ensures
            *status == self.status(),
    {
        &self.status
    }

    pub fn is_starting(&self) -> (starting: bool)
        ensures
            starting == (self.status() == ActorStatus::Starting),
    {
        self.status == ActorStatus::Starting
    }

    /// The typed reference to the actor itself.
    pub fn actor_ref<A: Actor>(&self) -> (actor_ref: LocalActorRef<A>)
        requires
            self.self_ref().is_a::<A>(),
        ensures
            actor_ref.id == self.self_ref().id,
            actor_ref.system_id == self.self_ref().system_id,
    {
        self.boxed_ref.downcast::<A>().unwrap()
    }

    pub fn boxed_actor_ref(&self) -> (actor_ref: BoxedActorRef)
        ensures
            actor_ref == self.self_ref(),
    {
        self.boxed_ref.clone()
    }

    /// The child `id`, where there is one and it is of kind `A`.
    pub fn child_ref<A: Actor>(&self, id: &ActorId) -> (child: Option<LocalActorRef<A>>)
        ensures
            child.is_some() == (self.children().contains_key(id@) && self.children()[id@].is_a::<
                A,
            >()),
            child matches Some(r) ==> r.id == self.children()[id@].id && r.system_id
                == self.children()[id@].system_id,
    {
        match self.supervised.as_ref() {
            Some(supervised) => supervised.child::<A>(id),
            None => None,
        }
    }

    /// The child `id`, whatever its kind.
    pub fn boxed_child_ref(&self, id: &ActorId) -> (child: Option<BoxedActorRef>)
        ensures
            child == if self.children().contains_key(id@) {
                Some(self.children()[id@])
            } else {
                None
            },
    {
        if let Some(supervised) = self.supervised.as_ref() {
            supervised.child_boxed(id)
        } else {
            None
        }
    }

    /// Puts a child under the supervision of this actor.
    pub fn attach_child_ref(&mut self, actor_ref: BoxedActorRef)
        ensures
            final(self).children() == old(self).children().insert(actor_ref.id@, actor_ref),
            final(self).supervised().is_some(),
            final(self).status() == old(self).status(),
            final(self).spec_system() == old(self).spec_system(),
            final(self).self_ref() == old(self).self_ref(),
            final(self).parent() == old(self).parent(),
            final(self).spec_persistence() == old(self).spec_persistence(),
    {
        let mut supervised = match self.supervised.take() {
            Some(supervised) => supervised,
            None => Supervised::new(),
        };
        supervised.attach_child_ref(actor_ref);
        self.supervised = Some(supervised);
    }

    /// The journal of the actor.
    pub fn persistence(&self) -> (persistence: &ActorPersistence)
        requires
            self.spec_persistence().is_some(),
        ensures
            Some(*persistence) == self.spec_persistence(),
    {
        self.persistence.as_ref().unwrap()
    }

    /// The journal of the actor, to change it.
    pub fn persistence_mut(&mut self) -> (persistence: &mut ActorPersistence)
        requires
            old(self).spec_persistence().is_some(),
        ensures
            Some(*persistence) == old(self).spec_persistence(),
            final(self).spec_persistence() == Some(*final(persistence)),
            final(self).status() == old(self).status(),
            final(self).spec_system() == old(self).spec_system(),
            final(self).self_ref() == old(self).self_ref(),
            final(self).parent() == old(self).parent(),
            final(self).supervised() == old(self).supervised(),
    {
        self.persistence.as_mut().unwrap()
    }

    /// The children of the actor, to change them.
    pub fn supervised_mut(&mut self) -> (supervised: Option<&mut Supervised>)
        ensures
            match supervised {
                Some(s) => Some(*s) == old(self).supervised() && final(self).supervised() == Some(
                    *final(s),
                ),
                None => old(self).supervised().is_none() && final(self).supervised().is_none(),
            },
            final(self).status() == old(self).status(),
            final(self).spec_system() == old(self).spec_system(),
            final(self).self_ref() == old(self).self_ref(),
            final(self).parent() == old(self).parent(),
            final(self).spec_persistence() == old(self).spec_persistence(),
    {
        self.supervised.as_mut()
    }

    pub fn set_persistence(&mut self, persistence: ActorPersistence)
        ensures
            final(self).spec_persistence() == Some(persistence),
            final(self).status() == old(self).status(),
            final(self).spec_system() == old(self).spec_system(),
            final(self).self_ref() == old(self).self_ref(),
            final(self).parent() == old(self).parent(),
            final(self).supervised() == old(self).supervised(),
    {
        self.persistence = Some(persistence);
    }

    /// Spawns a child under `id`: the child runs in the system of this
    /// actor. `started` says whether the child has acknowledged its start.
    /// A child that has started is put under the supervision of this
    /// actor; of one that has not, nothing is kept.
    pub fn spawn<A: Actor>(&mut self, id: ActorId, started: bool) -> (child: Result<
        LocalActorRef<A>,
        ActorRefErr,
    >)
        requires
            old(self).spec_system().is_some(),
        ensures
            started ==> {
                &&& child matches Ok(r) && r.id == id && r.system_id == Some(
                    old(self).spec_system().unwrap().system_id,
                )
                &&& final(self).children().dom() == old(self).children().dom().insert(id@)
                &&& final(self).children()[id@].id == id
                &&& final(self).children()[id@].is_a::<A>()
                &&& final(self).children()[id@].system_id == Some(
                    old(self).spec_system().unwrap().system_id,
                )
                &&& forall|other: Seq<char>|
                    other != id@ && old(self).children().contains_key(other)
                        ==> final(self).children()[other] == old(self).children()[other]
            },
            !started ==> {
                &&& child == Err::<LocalActorRef<A>, ActorRefErr>(ActorRefErr::StartChannelClosed)
                &&& final(self).supervised() == old(self).supervised()
            },
            final(self).status() == old(self).status(),
            final(self).spec_system() == old(self).spec_system(),
            final(self).self_ref() == old(self).self_ref(),
            final(self).parent() == old(self).parent(),
            final(self).spec_persistence() == old(self).spec_persistence(),
    {
        if !started {
            return Err(ActorRefErr::StartChannelClosed);
        }
        let actor_ref: LocalActorRef<A> = start_actor(id, Some(self.system().system_id));
        self.attach_child_ref(BoxedActorRef::from_local(actor_ref.clone()));
        Ok(actor_ref)
    }

    /// The context in which a child of this actor starts: it runs in the
    /// system of this actor and has this actor as its parent.
    pub fn child_context<A: Actor>(&self, child: &LocalActorRef<A>) -> (ctx: ActorContext)
        ensures
            ctx.parent() == Some(self.self_ref()),
            ctx.spec_system() == self.spec_system(),
            ctx.status() == ActorStatus::Starting,
            ctx.self_ref().id == child.id,
            ctx.self_ref().is_a::<A>(),
            ctx.self_ref().system_id == child.system_id,
            ctx.supervised().is_none(),
            ctx.spec_persistence().is_none(),
    {
        let system = match &self.system {
            Some(system) => Some(system.clone()),
            None => None,
        };
        ActorContext::new(
            system,
            ActorStatus::Starting,
            BoxedActorRef::from_local(child.clone()),
        ).with_parent(Some(self.boxed_ref.clone()))
    }

    /// Names the actor that spawned this one.
    pub fn with_parent(self, boxed_parent_ref: Option<BoxedActorRef>) -> (ctx: ActorContext)
        ensures
            ctx.parent() == boxed_parent_ref,
            ctx.status() == self.status(),
            ctx.spec_system() == self.spec_system(),
            ctx.self_ref() == self.self_ref(),
            ctx.supervised() == self.supervised(),
            ctx.spec_persistence() == self.spec_persistence(),
    {
        let mut ctx = self;
        ctx.boxed_parent_ref = boxed_parent_ref;
        ctx
    }

    /// Gives the actor a journal with the provider of its system.
    pub fn with_persistence(self) -> (ctx: ActorContext)
        requires
            self.spec_system() matches Some(s) && s.persistence.is_some(),
        ensures
            ctx.spec_persistence() matches Some(p) && p.provider
                == self.spec_system().unwrap().persistence.unwrap().provider,
            ctx.status() == self.status(),
            ctx.spec_system() == self.spec_system(),
            ctx.self_ref() == self.self_ref(),
            ctx.parent() == self.parent(),
            ctx.supervised() == self.supervised(),
    {
        let mut ctx = self;
        let provider = match &ctx.system().persistence {
            Some(persistence) => persistence.provider.clone(),
            None => unreached(),
        };
        ctx.persistence = Some(ActorPersistence::new(provider));
        ctx
    }

    /// Ends the context. The parent, if there is one, is to be told that
    /// this child has terminated; the children that are left are to be
    /// stopped; and the status tells how the actor ended.
    /// `system_terminated` says whether the system of the actor has shut
    /// down, as its system says at this moment; it counts for nothing where
    /// the actor ran in no system.
    pub fn on_drop(self, system_terminated: bool) -> (end: ContextEnd)
        ensures
            end.notify_parent == match self.parent() {
                Some(parent) => Some((parent, self.self_ref().id)),
                None => None,
            },
            end.stop_children == self.supervised(),
            end.cause == stop_cause(
                self.status(),
                self.spec_system().is_some(),
                system_terminated,
            ),
    {
        let notify_parent = match self.boxed_parent_ref {
            Some(parent) => Some((parent, self.boxed_ref.id)),
            None => None,
        };
        let cause = match self.status {
            ActorStatus::Starting => StopCause::PanickedWhileStarting,
            ActorStatus::Started => {
                if self.system.is_some() && system_terminated {
                    StopCause::SystemShutdown
                } else {
                    StopCause::Unexpected
                }
            },
            ActorStatus::Stopping => StopCause::PanickedWhileStopping,
            ActorStatus::Stopped => StopCause::Stopped,
        };
        ContextEnd { notify_parent, stop_children: self.supervised, cause }
    }
}

/// What to do with a stream that is attached to an actor once it ends.
#[derive(Clone, Copy, Debug, PartialEq, Eq, Structural)]
pub struct StreamAttachmentOptions {
    pub stop_on_stream_end: bool,
}

impl Default for StreamAttachmentOptions {
    fn default() -> (options: Self)
        ensures
            options.stop_on_stream_end,
    {
        Self { stop_on_stream_end: true }
    }
}

/// What an attached stream makes its actor do next.
pub enum StreamStep<M> {
    /// Send the message to the actor and go on reading.
    Notify(M),
    /// Go on reading.
    Skip,
    /// The stream is over: tell the actor to stop.
    StopActor,
    /// The stream is over: leave the actor as it is.
    Detach,
}

/// Decides what one item of an attached stream makes the actor do.
///
/// `item` is what the stream yielded: `None` at its end, an error where it
/// failed, else what the converter made of the value, which may be nothing.
/// Reading ends with the stream or with its first error.
pub fn attach_stream<M, E>(
    options: &StreamAttachmentOptions,
    item: Option<Result<Option<M>, E>>,
) -> (step: StreamStep<M>)
    ensures
        step == match item {
            Some(Ok(Some(message))) => StreamStep::Notify(message),
            Some(Ok(None)) => StreamStep::Skip,
            _ => if options.stop_on_stream_end {
                StreamStep::<M>::StopActor
            } else {
                StreamStep::<M>::Detach
            },
        },
{
    match item {
        Some(Ok(Some(message))) => StreamStep::Notify(message),
        Some(Ok(None)) => StreamStep::Skip,
        _ => if options.stop_on_stream_end {
            StreamStep::StopActor
        } else {
            StreamStep::Detach
        },
    }
}

} // verus!
