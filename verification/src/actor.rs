//! Local actors: messages, contexts, the scheduler and the actor system.
pub mod context;
pub mod lifecycle;
pub mod message;
pub mod scheduler;
pub mod supervised;
pub mod system;

use crate::actor::context::ActorContext;
use crate::ident::Id;
use crate::NodeId;
use std::marker::PhantomData;
use vstd::prelude::*;

verus! {

/// Identifier of an actor, unique within an actor system.
pub type ActorId = String;

/// Why a message did not reach an actor, or why no answer came back.
#[derive(Clone, Copy, Debug, PartialEq, Eq, Structural)]
pub enum ActorRefErr {
    /// The actor is absent or stopped, or its mailbox is closed.
    ActorUnavailable,
    /// The actor stopped before it answered.
    ResultChannelClosed,
    /// The actor did not reach the started state.
    StartChannelClosed,
    /// There is no live connection to the node of the actor.
    NodeUnreachable,
    /// The coordinator cannot place the shard at present.
    ShardUnavailable,
    /// Too many requests wait for one shard.
    ShardBufferFull,
    /// The entity does not exist and no recipe came with the request.
    EntityNotFound,
    /// The message could not be encoded.
    SerializationErr,
    /// The message could not be decoded.
    DeserializationErr,
    /// The message type has no encoding for the wire.
    NotTransmittable,
}

/// A unit of state that handles one message at a time.
pub trait Actor: Sized {
    /// The tag by which references to this kind of actor are told apart
    /// once their type has been erased. A kind of actor that does not say
    /// what its tag is has some tag that nothing is known of.
    open spec fn type_tag() -> Seq<char> {
        arbitrary()
    }

    /// The name of this kind of actor.
    fn actor_type() -> (name: String)
        ensures
            name@ == Self::type_tag(),
    ;

    /// Runs once before the first message is handled.
    fn started(&mut self, ctx: &mut ActorContext) {
    }

    /// Runs once after the last message was handled.
    fn stopped(&mut self, ctx: &mut ActorContext) {
    }
}

/// The right to send messages to a local actor of kind `A`.
pub struct LocalActorRef<A: Actor> {
    pub id: ActorId,
    pub system_id: Option<Id>,
    pub marker: PhantomData<A>,
}

impl<A: Actor> LocalActorRef<A> {
    pub fn new(id: ActorId, system_id: Option<Id>) -> (actor_ref: LocalActorRef<A>)
        ensures
            actor_ref.id == id,
            actor_ref.system_id == system_id,
    {
        LocalActorRef { id, system_id, marker: PhantomData }
    }

    /// The identifier of the actor.
    pub fn actor_id(&self) -> (id: &ActorId)
        ensures
            *id == self.id,
    {
        &self.id
    }
}

impl<A: Actor> Clone for LocalActorRef<A> {
    fn clone(&self) -> (actor_ref: LocalActorRef<A>)
        ensures
            actor_ref == *self,
    {
        LocalActorRef { id: self.id.clone(), system_id: self.system_id, marker: PhantomData }
    }
}

/// The right to send messages to an actor of kind `A` on another node.
pub struct RemoteActorRef<A: Actor> {
    pub id: ActorId,
    pub node_id: NodeId,
    pub marker: PhantomData<A>,
}

impl<A: Actor> RemoteActorRef<A> {
    pub fn new(id: ActorId, node_id: NodeId) -> (actor_ref: RemoteActorRef<A>)
        ensures
            actor_ref.id == id,
            actor_ref.node_id == node_id,
    {
        RemoteActorRef { id, node_id, marker: PhantomData }
    }
}

/// The right to send messages to an actor, wherever it lives. A message
/// for a local actor goes into its mailbox; a message for a remote actor is
/// encoded and travels to the node that hosts it.
pub enum ActorRef<A: Actor> {
    Local(LocalActorRef<A>),
    Remote(RemoteActorRef<A>),
}

impl<A: Actor> ActorRef<A> {
    /// The identifier of the actor.
    pub fn actor_id(&self) -> (id: &ActorId)
        ensures
            *id == match *self {
                ActorRef::Local(r) => r.id,
                ActorRef::Remote(r) => r.id,
            },
    {
        match self {
            ActorRef::Local(r) => &r.id,
            ActorRef::Remote(r) => &r.id,
        }
    }

    /// The node that hosts the actor, none for an actor of this node.
    pub fn node_id(&self) -> (node_id: Option<NodeId>)
        ensures
            node_id == match *self {
                ActorRef::Local(_) => None,
                ActorRef::Remote(r) => Some(r.node_id),
            },
    {
        match self {
            ActorRef::Local(_) => None,
            ActorRef::Remote(r) => Some(r.node_id),
        }
    }

    pub fn is_local(&self) -> (local: bool)
        ensures
            local == (*self is Local),
    {
        match self {
            ActorRef::Local(_) => true,
            ActorRef::Remote(_) => false,
        }
    }

    pub fn is_remote(&self) -> (remote: bool)
        ensures
            remote == (*self is Remote),
    {
        match self {
            ActorRef::Local(_) => false,
            ActorRef::Remote(_) => true,
        }
    }

    /// The reference to the local actor.
    pub fn unwrap_local(self) -> (actor_ref: LocalActorRef<A>)
        requires
            self is Local,
        ensures
            self == ActorRef::Local(actor_ref),
    {
        match self {
            ActorRef::Local(r) => r,
            ActorRef::Remote(_) => unreached(),
        }
    }

    /// The reference to the remote actor.
    pub fn unwrap_remote(self) -> (actor_ref: RemoteActorRef<A>)
        requires
            self is Remote,
        ensures
            self == ActorRef::Remote(actor_ref),
    {
        match self {
            ActorRef::Remote(r) => r,
            ActorRef::Local(_) => unreached(),
        }
    }
}

/// A reference to a local actor whose kind is known only by its tag.
#[derive(Debug)]
pub struct BoxedActorRef {
    pub id: ActorId,
    pub actor_type: String,
    pub system_id: Option<Id>,
}

impl Clone for BoxedActorRef {
    fn clone(&self) -> (actor_ref: BoxedActorRef)
        ensures
            actor_ref == *self,
    {
        BoxedActorRef {
            id: self.id.clone(),
            actor_type: self.actor_type.clone(),
            system_id: self.system_id,
        }
    }
}

impl BoxedActorRef {
    /// Forgets the kind of the actor but for its tag.
    pub fn from_local<A: Actor>(actor_ref: LocalActorRef<A>) -> (boxed: BoxedActorRef)
        ensures
            boxed.id == actor_ref.id,
            boxed.actor_type@ == A::type_tag(),
            boxed.system_id == actor_ref.system_id,
    {
        BoxedActorRef {
            id: actor_ref.id,
            actor_type: A::actor_type(),
            system_id: actor_ref.system_id,
        }
    }

    /// The identifier of the actor.
    pub fn actor_id(&self) -> (id: &ActorId)
        ensures
            *id == self.id,
    {
        &self.id
    }

    /// Whether the reference points to an actor of kind `A`.
    pub open spec fn is_a<A: Actor>(&self) -> bool {
        self.actor_type@ == A::type_tag()
    }

    /// The typed reference, where the actor is of kind `A`; nothing where
    /// it is of another kind.
    pub fn downcast<A: Actor>(&self) -> (actor_ref: Option<LocalActorRef<A>>)
        ensures
            actor_ref.is_some() == self.is_a::<A>(),
            actor_ref matches Some(r) ==> r.id == self.id && r.system_id == self.system_id,
    {
        let wanted = A::actor_type();
        if self.actor_type == wanted {
            Some(LocalActorRef { id: self.id.clone(), system_id: self.system_id, marker: PhantomData })
        } else {
            None
        }
    }
}

} // verus!
