//! The actor system: the container in which actors are started and found.
use crate::actor::scheduler::{ActorScheduler, ActorType, RegisterActor};
use crate::actor::{Actor, ActorId, ActorRefErr, LocalActorRef};
use crate::actor::scheduler::GetActor;
use crate::ident::{format_uuid, is_random_uuid, random_uuid, uuid_parse, Id};
use crate::NodeId;
use vstd::prelude::*;

verus! {

/// The storage that the actors of a system may keep their journals in.
#[derive(Debug)]
pub struct Persistence {
    pub provider: String,
}

impl Clone for Persistence {
    fn clone(&self) -> (p: Persistence)
        ensures
            p == *self,
    {
        Persistence { provider: self.provider.clone() }
    }
}

/// The remote side of a system: the node that it is in a cluster.
#[derive(Debug)]
pub struct RemoteHandle {
    pub node_id: NodeId,
    pub node_tag: String,
}

impl Clone for RemoteHandle {
    fn clone(&self) -> (r: RemoteHandle)
        ensures
            r == *self,
    {
        RemoteHandle { node_id: self.node_id, node_tag: self.node_tag.clone() }
    }
}

/// An actor system. There is one value for each system, and it alone says
/// whether the system has shut down; actors hold a `SystemHandle`.
pub struct ActorSystem {
    system_id: Id,
    scheduler: LocalActorRef<ActorScheduler>,
    remote: Option<RemoteHandle>,
    persistence: Option<Persistence>,
    is_terminated: bool,
}

/// What an actor holds of the system that it runs in: how the system is
/// named and what it offers. Whether the system has shut down is not part
/// of it: that is said by the system itself, of which there is one.
pub struct SystemHandle {
    pub system_id: Id,
    pub scheduler: LocalActorRef<ActorScheduler>,
    pub remote: Option<RemoteHandle>,
    pub persistence: Option<Persistence>,
}

impl Clone for SystemHandle {
    fn clone(&self) -> (handle: SystemHandle)
        ensures
            handle == *self,
    {
        SystemHandle {
            system_id: self.system_id,
            scheduler: self.scheduler.clone(),
            remote: match &self.remote {
                Some(remote) => Some(remote.clone()),
                None => None,
            },
            persistence: match &self.persistence {
                Some(persistence) => Some(persistence.clone()),
                None => None,
            },
        }
    }
}

impl Default for ActorSystem {
    fn default() -> (system: ActorSystem)
        ensures
            is_random_uuid(system.id()),
            !system.terminated(),
            system.spec_remote().is_none(),
            system.spec_persistence().is_none(),
    {
        ActorSystem::new()
    }
}

/// What starting an actor asks of the runtime and what it has come to.
pub struct NewActor<A: Actor> {
    /// The registration to send to the scheduler, for a tracked actor that
    /// has started.
    pub register: Option<RegisterActor<A>>,
    /// The reference to the actor where it has started, else the failure.
    pub result: Result<LocalActorRef<A>, ActorRefErr>,
}

/// A fresh identifier for an actor that was given none: the text of a
/// random UUID.
pub fn new_actor_id() -> (id: ActorId)
    ensures
        uuid_parse(id@) matches Some(value) && is_random_uuid(value),
{
    format_uuid(random_uuid())
}

impl ActorSystem {
    /// The identifier of the system.
    pub closed spec fn id(&self) -> Id {
        self.system_id
    }

    /// Whether the system has been shut down.
    pub closed spec fn terminated(&self) -> bool {
        self.is_terminated
    }

    /// The node that the system is in a cluster, where it is one.
    pub closed spec fn spec_remote(&self) -> Option<RemoteHandle> {
        self.remote
    }

    /// The storage of the system, where it has one.
    pub closed spec fn spec_persistence(&self) -> Option<Persistence> {
        self.persistence
    }

    /// The reference to the scheduler of the system.
    pub closed spec fn spec_scheduler(&self) -> LocalActorRef<ActorScheduler> {
        self.scheduler
    }

    /// A new system under the identifier `system_id`, with its scheduler:
    /// it has not shut down, is in no cluster and has no storage.
    pub fn with_id(system_id: Id) -> (system: ActorSystem)
        ensures
            system.id() == system_id,
            !system.terminated(),
            system.spec_remote().is_none(),
            system.spec_persistence().is_none(),
            system.spec_scheduler().system_id.is_none(),
            system.spec_scheduler().id@ == ActorScheduler::scheduler_id(),
    {
        ActorSystem {
            system_id,
            scheduler: ActorScheduler::new(system_id).0,
            remote: None,
            persistence: None,
            is_terminated: false,
        }
    }

    /// A new system under a random identifier, with its scheduler.
    pub fn new() -> (system: ActorSystem)
        ensures
            is_random_uuid(system.id()),
            !system.terminated(),
            system.spec_remote().is_none(),
            system.spec_persistence().is_none(),
            system.spec_scheduler().system_id.is_none(),
            system.spec_scheduler().id@ == ActorScheduler::scheduler_id(),
    {
        let system_id = random_uuid();
        ActorSystem::with_id(system_id)
    }

    /// A new system whose actors can keep journals in `persistence`.
    pub fn new_persistent(persistence: Persistence) -> (system: ActorSystem)
        ensures
            is_random_uuid(system.id()),
            !system.terminated(),
            system.spec_remote().is_none(),
            system.spec_persistence() == Some(persistence),
    {
        let mut system = ActorSystem::new();
        system.persistence = Some(persistence);
        system
    }

    pub fn system_id(&self) -> (id: &Id)
        ensures
            *id == self.id(),
    {
        &self.system_id
    }

    pub fn scheduler(&self) -> (scheduler: &LocalActorRef<ActorScheduler>)
        ensures
            *scheduler == self.spec_scheduler(),
    {
        &self.scheduler
    }

    pub fn set_remote(&mut self, remote: RemoteHandle)
        ensures
            final(self).spec_remote() == Some(remote),
            final(self).id() == old(self).id(),
            final(self).terminated() == old(self).terminated(),
            final(self).spec_persistence() == old(self).spec_persistence(),
            final(self).spec_scheduler() == old(self).spec_scheduler(),
    {
        self.remote = Some(remote);
    }

    /// The node that the system is in a cluster.
    pub fn remote(&self) -> (remote: &RemoteHandle)
        requires
            self.spec_remote().is_some(),
        ensures
            Some(*remote) == self.spec_remote(),
    {
        self.remote.as_ref().unwrap()
    }

    pub fn remote_owned(&self) -> (remote: RemoteHandle)
        requires
            self.spec_remote().is_some(),
        ensures
            Some(remote) == self.spec_remote(),
    {
        self.remote().clone()
    }

    pub fn is_remote(&self) -> (remote: bool)
        ensures
            remote == self.spec_remote().is_some(),
    {
        self.remote.is_some()
    }

    /// What actors hold of this system.
    pub open spec fn spec_handle(&self) -> SystemHandle {
        SystemHandle {
            system_id: self.id(),
            scheduler: self.spec_scheduler(),
            remote: self.spec_remote(),
            persistence: self.spec_persistence(),
        }
    }

    /// What an actor holds of this system.
    pub fn handle(&self) -> (handle: SystemHandle)
        ensures
            handle == self.spec_handle(),
    {
        SystemHandle {
            system_id: self.system_id,
            scheduler: self.scheduler.clone(),
            remote: match &self.remote {
                Some(remote) => Some(remote.clone()),
                None => None,
            },
            persistence: match &self.persistence {
                Some(persistence) => Some(persistence.clone()),
                None => None,
            },
        }
    }

    /// Starts an actor under `id`.
    ///
    /// `started` says whether the actor has acknowledged its start. Where
    /// it has, the caller gets its reference, and a tracked actor is to be
    /// registered with the scheduler. Where it has not, the caller gets
    /// `StartChannelClosed` and nothing is registered.
    pub fn new_actor<A: Actor>(&self, id: ActorId, actor_type: ActorType, started: bool) -> (outcome:
        NewActor<A>)
        ensures
            outcome.register.is_some() == (actor_type.is_tracked() && started),
            outcome.register matches Some(r) ==> r.id == id && r.actor_ref.id == id
                && r.actor_ref.system_id == Some(self.id()),
            started ==> (outcome.result matches Ok(r) && r.id == id && r.system_id == Some(
                self.id(),
            )),
            !started ==> outcome.result == Err::<LocalActorRef<A>, ActorRefErr>(
                ActorRefErr::StartChannelClosed,
            ),
    {
        if !started {
            return NewActor { register: None, result: Err(ActorRefErr::StartChannelClosed) };
        }
        let actor_ref: LocalActorRef<A> = crate::actor::scheduler::start_actor(
            id.clone(),
            Some(self.system_id),
        );
        let register = if actor_type.is_tracked() {
            Some(RegisterActor { id: id, actor_ref: actor_ref.clone() })
        } else {
            None
        };
        NewActor { register, result: Ok(actor_ref) }
    }

    /// Starts an actor under a fresh identifier and, once it has started,
    /// has the scheduler keep a reference to it.
    pub fn new_tracked_actor<A: Actor>(&self, started: bool) -> (outcome: NewActor<A>)
        ensures
            outcome.register.is_some() == started,
            outcome.register matches Some(r) ==> r.actor_ref.id == r.id && r.actor_ref.system_id
                == Some(self.id()) && uuid_parse(r.id@).is_some(),
            started ==> (outcome.result matches Ok(r) && Some(r.id) == Some(
                outcome.register.unwrap().id,
            ) && r.system_id == Some(self.id())),
            !started ==> outcome.result == Err::<LocalActorRef<A>, ActorRefErr>(
                ActorRefErr::StartChannelClosed,
            ),
    {
        let id = new_actor_id();
        self.new_actor(id, ActorType::Registered, started)
    }

    /// Starts an actor under a fresh identifier that only the holders of
    /// its reference can reach.
    pub fn new_anon_actor<A: Actor>(&self, started: bool) -> (outcome: NewActor<A>)
        ensures
            outcome.register.is_none(),
            started ==> (outcome.result matches Ok(r) && uuid_parse(r.id@).is_some()
                && r.system_id == Some(self.id())),
            !started ==> outcome.result == Err::<LocalActorRef<A>, ActorRefErr>(
                ActorRefErr::StartChannelClosed,
            ),
    {
        let id = new_actor_id();
        self.new_actor(id, ActorType::Anonymous, started)
    }

    /// The reference to the tracked actor `id`, where the scheduler can be
    /// asked, knows the actor, and the actor is of kind `A`.
    pub fn get_tracked_actor<A: Actor>(
        &self,
        id: ActorId,
        scheduler: Option<&ActorScheduler>,
    ) -> (actor_ref: Option<LocalActorRef<A>>)
        ensures
            actor_ref.is_some() == (scheduler matches Some(s) && s.actors().contains_key(id@)
                && s.actors()[id@].is_a::<A>()),
            actor_ref matches Some(r) ==> r.id == scheduler.unwrap().actors()[id@].id && r.system_id
                == scheduler.unwrap().actors()[id@].system_id,
    {
        match scheduler {
            Some(scheduler) => scheduler.handle_get(GetActor::new(id)),
            None => None,
        }
    }

    pub fn is_terminated(&self) -> (terminated: bool)
        ensures
            terminated == self.terminated(),
    {
        self.is_terminated
    }

    /// Marks the system as shut down, for good, and names the actor to
    /// stop: the scheduler, which stops every tracked actor in turn.
    pub fn shutdown(&mut self) -> (stop: LocalActorRef<ActorScheduler>)
        ensures
            final(self).terminated(),
            final(self).id() == old(self).id(),
            final(self).spec_remote() == old(self).spec_remote(),
            final(self).spec_persistence() == old(self).spec_persistence(),
            final(self).spec_scheduler() == old(self).spec_scheduler(),
            stop == old(self).spec_scheduler(),
    {
        self.is_terminated = true;
        self.scheduler.clone()
    }

    pub fn set_persistence(&mut self, persistence: Option<Persistence>)
        ensures
            final(self).spec_persistence() == persistence,
            final(self).id() == old(self).id(),
            final(self).terminated() == old(self).terminated(),
            final(self).spec_remote() == old(self).spec_remote(),
            final(self).spec_scheduler() == old(self).spec_scheduler(),
    {
        self.persistence = persistence;
    }

    pub fn persistence(&self) -> (persistence: Option<&Persistence>)
        ensures
            persistence == match self.spec_persistence() {
                Some(p) => Some(&p),
                None => None,
            },
    {
        self.persistence.as_ref()
    }
}

} // verus!
