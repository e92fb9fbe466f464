//! The scheduler: the registry of the tracked actors of a system.
use crate::actor::message::Message;
use crate::actor::system::{RemoteHandle, SystemHandle};
use crate::actor::{Actor, ActorId, BoxedActorRef, LocalActorRef};
use crate::ident::Id;
use crate::table::Table;
use std::marker::PhantomData;
use vstd::prelude::*;
use vstd::string::StringExecFns;

verus! {

/// Whether the scheduler keeps a reference to an actor.
#[derive(Debug, Clone, Copy, PartialEq, Eq, Structural)]
pub enum ActorType {
    /// The scheduler keeps a reference, so that the actor can be found by
    /// its identifier.
    Registered,
    /// Only those who hold a reference can reach the actor.
    Anonymous,
}

impl ActorType {
    pub open spec fn spec_is_tracked(&self) -> bool {
        *self == ActorType::Registered
    }

    #[verifier::when_used_as_spec(spec_is_tracked)]
    pub fn is_tracked(&self) -> (r: bool)
        ensures
            r == (*self == ActorType::Registered),
    {
        match self {
            ActorType::Registered => true,
            _ => false,
        }
    }

    pub open spec fn spec_is_anon(&self) -> bool {
        *self == ActorType::Anonymous
    }

    #[verifier::when_used_as_spec(spec_is_anon)]
    pub fn is_anon(&self) -> (anon: bool)
        ensures
            anon == (*self == ActorType::Anonymous),
    {
        match self {
            ActorType::Anonymous => true,
            _ => false,
        }
    }
}

/// Hands the scheduler the system that it belongs to.
pub struct SetSystem(pub SystemHandle);

impl Message for SetSystem {
    type Result = ();
}

/// Tells the scheduler that its system has joined a cluster.
pub struct SetRemote(pub RemoteHandle);

impl Message for SetRemote {
    type Result = ();
}

/// Asks the scheduler to keep the reference to an actor.
pub struct RegisterActor<A: Actor> {
    pub id: ActorId,
    pub actor_ref: LocalActorRef<A>,
}

impl<A: Actor> Message for RegisterActor<A> {
    type Result = ();
}

/// Asks the scheduler to forget an actor.
pub struct DeregisterActor(pub ActorId);

impl Message for DeregisterActor {
    type Result = ();
}

/// Asks the scheduler for the reference to an actor of kind `A`.
pub struct GetActor<A: Actor> {
    pub id: ActorId,
    pub marker: PhantomData<A>,
}

impl<A: Actor> Message for GetActor<A> {
    type Result = Option<LocalActorRef<A>>;
}

impl<A: Actor> GetActor<A> {
    pub fn new(id: ActorId) -> (get: GetActor<A>)
        ensures
            get.id == id,
    {
        GetActor { id, marker: PhantomData }
    }
}

/// The scheduler of one system.
pub struct ActorScheduler {
    actors: Table<BoxedActorRef>,
    system_id: Id,
    remote: Option<RemoteHandle>,
}

/// What a registration asks of the remote side: to announce the actor to
/// the cluster as living on this node.
pub struct AnnounceActor {
    pub node_id: crate::NodeId,
    pub actor_id: ActorId,
}

impl Actor for ActorScheduler {
    open spec fn type_tag() -> Seq<char> {
        "ActorScheduler"@
    }

    fn actor_type() -> (name: String) {
        String::from_str("ActorScheduler")
    }
}

impl ActorScheduler {
    /// The identifier under which every scheduler runs.
    pub open spec fn scheduler_id() -> Seq<char> {
        "ActorScheduler-0"@
    }

    /// The tracked actors by identifier.
    pub closed spec fn actors(&self) -> Map<Seq<char>, BoxedActorRef> {
        self.actors.map()
    }

    /// The identifiers of the tracked actors in the order of registration.
    pub closed spec fn actor_ids(&self) -> Seq<Seq<char>> {
        self.actors.keys()
    }

    /// The node that the system is in a cluster, once it has joined one.
    pub closed spec fn remote(&self) -> Option<RemoteHandle> {
        self.remote
    }

    /// The system that the scheduler belongs to.
    pub closed spec fn system(&self) -> Id {
        self.system_id
    }

    /// The scheduler of the system `system_id`, without actors, and the
    /// reference under which it runs as an anonymous actor itself.
    pub fn new(system_id: Id) -> (started: (LocalActorRef<ActorScheduler>, ActorScheduler))
        ensures
            started.0.id@ == Self::scheduler_id(),
            started.0.system_id.is_none(),
            started.1.actors() == Map::<Seq<char>, BoxedActorRef>::empty(),
            started.1.remote().is_none(),
            started.1.system() == system_id,
    {
        let scheduler = ActorScheduler { system_id, actors: Table::new(), remote: None };
        let actor_ref = start_actor::<ActorScheduler>(String::from_str("ActorScheduler-0"), None);
        (actor_ref, scheduler)
    }

    /// How many actors are tracked.
    pub fn total_tracked_actors(&self) -> (n: usize)
        ensures
            n == self.actors().len(),
            n == self.actor_ids().len(),
    {
        self.actors.len()
    }

    /// Notes that the system has joined a cluster.
    pub fn handle_set_remote(&mut self, message: SetRemote)
        ensures
            final(self).remote() == Some(message.0),
            final(self).actors() == old(self).actors(),
            final(self).system() == old(self).system(),
    {
        self.remote = Some(message.0);
    }

    /// Keeps the reference to an actor; where the system is in a cluster,
    /// the actor is to be announced there as living on this node.
    pub fn handle_register<A: Actor>(&mut self, message: RegisterActor<A>) -> (announce: Option<
        AnnounceActor,
    >)
        ensures
            final(self).actors().dom() == old(self).actors().dom().insert(message.id@),
            final(self).actors()[message.id@].id == message.actor_ref.id,
            final(self).actors()[message.id@].is_a::<A>(),
            final(self).actors()[message.id@].system_id == message.actor_ref.system_id,
            forall|id: Seq<char>|
                id != message.id@ && old(self).actors().contains_key(id)
                    ==> final(self).actors()[id] == old(self).actors()[id],
            final(self).remote() == old(self).remote(),
            final(self).system() == old(self).system(),
            announce.is_some() == old(self).remote().is_some(),
            announce matches Some(a) ==> a.node_id == old(self).remote().unwrap().node_id
                && a.actor_id == message.id,
    {
        let boxed = BoxedActorRef::from_local(message.actor_ref);
        self.actors.insert(message.id.clone(), boxed);
        match &self.remote {
            Some(remote) => Some(AnnounceActor { node_id: remote.node_id, actor_id: message.id }),
            None => None,
        }
    }

    /// Forgets an actor; says whether it was known.
    pub fn handle_deregister(&mut self, message: DeregisterActor) -> (known: bool)
        ensures
            final(self).actors() == old(self).actors().remove(message.0@),
            known == old(self).actors().contains_key(message.0@),
            final(self).remote() == old(self).remote(),
            final(self).system() == old(self).system(),
    {
        self.actors.remove(message.0.as_str()).is_some()
    }

    /// The reference to the actor `id`, where it is tracked and of kind `A`.
    pub fn handle_get<A: Actor>(&self, message: GetActor<A>) -> (actor_ref: Option<LocalActorRef<A>>)
        ensures
            actor_ref.is_some() == (self.actors().contains_key(message.id@)
                && self.actors()[message.id@].is_a::<A>()),
            actor_ref matches Some(r) ==> r.id == self.actors()[message.id@].id && r.system_id
                == self.actors()[message.id@].system_id,
    {
        match self.actors.get(message.id.as_str()) {
            Some(actor) => actor.downcast::<A>(),
            None => None,
        }
    }

    /// The actors to stop when the scheduler stops: every tracked actor,
    /// each once, in the order of registration. Each is told to stop
    /// whatever comes of the stop of another.
    pub fn stopped(&self) -> (ids: Vec<ActorId>)
        ensures
            ids@.len() == self.actor_ids().len(),
            forall|i: int| 0 <= i < ids@.len() ==> (#[trigger] ids@[i])@ == self.actor_ids()[i],
            self.actor_ids().no_duplicates(),
            forall|id: Seq<char>| self.actors().contains_key(id) <==> self.actor_ids().contains(id),
    {
        self.actors.key_list()
    }
}

/// The reference under which a new actor runs: its identifier, and the
/// identifier of the system that it is started in, if any.
pub fn start_actor<A: Actor>(id: ActorId, system_id: Option<Id>) -> (actor_ref: LocalActorRef<A>)
    ensures
        actor_ref.id == id,
        actor_ref.system_id == system_id,
{
    LocalActorRef::new(id, system_id)
}

} // verus!
