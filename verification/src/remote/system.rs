//! The remote side of an actor system: one node of a cluster.
use crate::actor::scheduler::ActorScheduler;
use crate::actor::system::ActorSystem;
use crate::actor::{Actor, ActorId, LocalActorRef};
use crate::ident::{format_uuid, random_uuid, uuid_parse, uuid_text, Id};
use crate::remote::net::proto::{MessageRequest, PingEvent};
use crate::remote::cluster::discovery::NodeDiscovery;
use crate::remote::cluster::node::{SystemCapabilities, Timestamp};
use crate::remote::cluster::registry::RemoteRegistry;
use crate::remote::handler::{
    popped, pushed, taken, without, RemoteHandler, RemoteRequest,
};
use crate::remote::RemoteResponse;
use crate::remote::heartbeat::{Heartbeat, HeartbeatConfig};
use crate::remote::net::client::RemoteClientRegistry;
use crate::NodeId;
use vstd::prelude::*;
use vstd::string::StringExecFns;

verus! {

/// The mediator of distributed streams.
pub struct StreamMediator;

impl Actor for StreamMediator {
    open spec fn type_tag() -> Seq<char> {
        "StreamMediator"@
    }

    fn actor_type() -> (name: String) {
        String::from_str("StreamMediator")
    }
}

/// How a node presents itself and what it offers.
pub struct RemoteSystemConfig {
    pub node_tag: String,
    pub actor_types: Vec<String>,
    pub handler_types: Vec<String>,
    pub heartbeat_config: HeartbeatConfig,
}

impl RemoteSystemConfig {
    pub fn node_tag(&self) -> (tag: &str)
        ensures
            tag@ == self.node_tag@,
    {
        self.node_tag.as_str()
    }

    /// The actor types and message handlers that the node offers.
    pub fn get_capabilities(&self) -> (capabilities: SystemCapabilities)
        ensures
            capabilities.actors@ == self.actor_types@,
            capabilities.messages@ == self.handler_types@,
    {
        SystemCapabilities {
            actors: clone_texts(&self.actor_types),
            messages: clone_texts(&self.handler_types),
        }
    }
}

/// A copy of a list of texts.
pub fn clone_texts(texts: &Vec<String>) -> (copy: Vec<String>)
    ensures
        copy@ == texts@,
{
    let mut copy: Vec<String> = Vec::new();
    let mut i: usize = 0;
    while i < texts.len()
        invariant
            i <= texts.len(),
            copy@ == texts@.take(i as int),
        decreases texts.len() - i,
    {
        copy.push(texts[i].clone());
        proof {
            assert(texts@.take(i as int + 1) == texts@.take(i as int).push(texts@[i as int]));
        }
        i += 1;
    }
    proof {
        assert(texts@.take(i as int) == texts@);
    }
    copy
}

/// The state of one node.
pub struct RemoteSystemCore<S> {
    node_id: NodeId,
    inner: ActorSystem,
    started_at: Timestamp,
    handler: RemoteHandler<S>,
    registry_ref: LocalActorRef<RemoteRegistry>,
    clients_ref: LocalActorRef<RemoteClientRegistry>,
    discovery_ref: LocalActorRef<NodeDiscovery>,
    heartbeat_ref: LocalActorRef<Heartbeat>,
    mediator_ref: Option<LocalActorRef<StreamMediator>>,
    config: RemoteSystemConfig,
}

/// One node of a cluster.
pub struct RemoteActorSystem<S> {
    inner: RemoteSystemCore<S>,
}

/// The actors that make up the remote side, as a node is built from them.
pub struct RemoteActors {
    pub registry: LocalActorRef<RemoteRegistry>,
    pub clients: LocalActorRef<RemoteClientRegistry>,
    pub discovery: LocalActorRef<NodeDiscovery>,
    pub heartbeat: LocalActorRef<Heartbeat>,
    pub mediator: Option<LocalActorRef<StreamMediator>>,
}

/// The actors of the remote side in the order in which a shutdown stops
/// them: heartbeat, clients, the stream mediator if there is one,
/// discovery, registry.
pub open spec fn stop_order(actors: RemoteActors) -> Seq<ActorId> {
    match actors.mediator {
        Some(mediator) => seq![
            actors.heartbeat.id,
            actors.clients.id,
            mediator.id,
            actors.discovery.id,
            actors.registry.id,
        ],
        None => seq![
            actors.heartbeat.id,
            actors.clients.id,
            actors.discovery.id,
            actors.registry.id,
        ],
    }
}

/// What is to be stopped when a node shuts down.
pub struct NodeShutdown {
    /// The scheduler of the actor system, which stops every tracked actor.
    pub scheduler: LocalActorRef<ActorScheduler>,
    /// The actors of the remote side, in the order in which they stop.
    pub remote: Vec<ActorId>,
}

impl<S> RemoteSystemCore<S> {
    pub closed spec fn spec_actor_system(&self) -> ActorSystem {
        self.inner
    }

    /// The actors that make up the remote side.
    pub closed spec fn actors(&self) -> RemoteActors {
        RemoteActors {
            registry: self.registry_ref,
            clients: self.clients_ref,
            discovery: self.discovery_ref,
            heartbeat: self.heartbeat_ref,
            mediator: self.mediator_ref,
        }
    }

    pub fn actor_system(&self) -> (system: &ActorSystem)
        ensures
            *system == self.spec_actor_system(),
    {
        &self.inner
    }

    /// The actors of the remote side to stop when the node shuts down, in
    /// the order in which they are stopped.
    pub fn shutdown(&self) -> (stops: Vec<ActorId>)
        ensures
            stops@ == self.shutdown_order(),
    {
        let mut stops: Vec<ActorId> = Vec::new();
        stops.push(self.heartbeat_ref.id.clone());
        stops.push(self.clients_ref.id.clone());
        if let Some(mediator_ref) = self.mediator_ref.as_ref() {
            stops.push(mediator_ref.id.clone());
        }
        stops.push(self.discovery_ref.id.clone());
        stops.push(self.registry_ref.id.clone());
        stops
    }

    /// The actors of the remote side in the order in which a shutdown
    /// stops them.
    pub open spec fn shutdown_order(&self) -> Seq<ActorId> {
        stop_order(self.actors())
    }
}

impl<S> RemoteActorSystem<S> {
    /// The identifier of the node.
    pub closed spec fn id(&self) -> NodeId {
        self.inner.node_id
    }

    /// The tag of the node.
    pub closed spec fn tag(&self) -> Seq<char> {
        self.inner.config.node_tag@
    }

    /// When the node started.
    pub closed spec fn start(&self) -> Timestamp {
        self.inner.started_at
    }

    /// The requests of this node that wait for a reply.
    pub closed spec fn requests(&self) -> Map<Id, RemoteRequest<S>> {
        self.inner.handler@
    }

    /// The actor system that the node belongs to.
    pub closed spec fn spec_actor_system(&self) -> ActorSystem {
        self.inner.inner
    }

    /// How the node presents itself and what it offers.
    pub closed spec fn spec_config(&self) -> RemoteSystemConfig {
        self.inner.config
    }

    /// The actors that make up the remote side.
    pub closed spec fn actors(&self) -> RemoteActors {
        self.inner.actors()
    }

    /// Whether `other` is the remote side of this node: the same
    /// identity, the same configuration, the same actors.
    pub open spec fn same_remote(&self, other: &RemoteActorSystem<S>) -> bool {
        &&& self.id() == other.id()
        &&& self.tag() == other.tag()
        &&& self.start() == other.start()
        &&& self.spec_config() == other.spec_config()
        &&& self.actors() == other.actors()
    }

    /// Whether `other` is this node with, at most, other pending requests.
    pub open spec fn same_node(&self, other: &RemoteActorSystem<S>) -> bool {
        &&& self.same_remote(other)
        &&& self.spec_actor_system() == other.spec_actor_system()
    }

    /// A node without pending requests.
    pub fn new(
        node_id: NodeId,
        actor_system: ActorSystem,
        started_at: Timestamp,
        config: RemoteSystemConfig,
        actors: RemoteActors,
    ) -> (system: RemoteActorSystem<S>)
        ensures
            system.id() == node_id,
            system.tag() == config.node_tag@,
            system.start() == started_at,
            system.spec_actor_system() == actor_system,
            system.spec_config() == config,
            system.actors() == actors,
            system.requests() == Map::<Id, RemoteRequest<S>>::empty(),
    {
        RemoteActorSystem {
            inner: RemoteSystemCore {
                node_id,
                inner: actor_system,
                started_at,
                handler: RemoteHandler::new(),
                registry_ref: actors.registry,
                clients_ref: actors.clients,
                discovery_ref: actors.discovery,
                heartbeat_ref: actors.heartbeat,
                mediator_ref: actors.mediator,
                config,
            },
        }
    }

    /// Shuts the node down: its actor system is marked as shut down, for
    /// good, so that every later ping of this node says so; the scheduler
    /// and the actors of the remote side are named to be stopped.
    pub fn shutdown(&mut self) -> (stops: NodeShutdown)
        ensures
            final(self).spec_actor_system().terminated(),
            final(self).spec_actor_system().spec_handle() == old(
                self,
            ).spec_actor_system().spec_handle(),
            final(self).same_remote(old(self)),
            final(self).requests() == old(self).requests(),
            stops.scheduler == old(self).spec_actor_system().spec_scheduler(),
            stops.remote@ == old(self).shutdown_order(),
    {
        let scheduler = self.inner.inner.shutdown();
        NodeShutdown { scheduler, remote: self.inner.shutdown() }
    }

    /// The actors of the remote side in the order in which a shutdown
    /// stops them.
    pub open spec fn shutdown_order(&self) -> Seq<ActorId> {
        stop_order(self.actors())
    }

    pub fn config(&self) -> (config: &RemoteSystemConfig)
        ensures
            *config == self.spec_config(),
    {
        &self.inner.config
    }

    pub fn node_tag(&self) -> (tag: &str)
        ensures
            tag@ == self.tag(),
    {
        self.inner.config.node_tag()
    }

    pub fn node_id(&self) -> (id: NodeId)
        ensures
            id == self.id(),
    {
        self.inner.node_id
    }

    pub fn started_at(&self) -> (at: &Timestamp)
        ensures
            *at == self.start(),
    {
        &self.inner.started_at
    }

    pub fn heartbeat(&self) -> (heartbeat: &LocalActorRef<Heartbeat>)
        ensures
            *heartbeat == self.actors().heartbeat,
    {
        &self.inner.heartbeat_ref
    }

    pub fn registry(&self) -> (registry: &LocalActorRef<RemoteRegistry>)
        ensures
            *registry == self.actors().registry,
    {
        &self.inner.registry_ref
    }

    pub fn client_registry(&self) -> (clients: &LocalActorRef<RemoteClientRegistry>)
        ensures
            *clients == self.actors().clients,
    {
        &self.inner.clients_ref
    }

    pub fn node_discovery(&self) -> (discovery: &LocalActorRef<NodeDiscovery>)
        ensures
            *discovery == self.actors().discovery,
    {
        &self.inner.discovery_ref
    }

    pub fn stream_mediator(&self) -> (mediator: Option<&LocalActorRef<StreamMediator>>)
        ensures
            mediator == match self.actors().mediator {
                Some(m) => Some(&m),
                None => None,
            },
    {
        self.inner.mediator_ref.as_ref()
    }

    pub fn actor_system(&self) -> (system: &ActorSystem)
        ensures
            *system == self.spec_actor_system(),
    {
        self.inner.actor_system()
    }

    /// Registers a request that waits for a reply under `id`.
    pub fn push_request(&mut self, id: Id, res_tx: S)
        ensures
            final(self).requests() == pushed(old(self).requests(), id, (RemoteRequest { res_tx })),
            final(self).same_node(old(self)),
    {
        self.inner.handler.push_request(id, RemoteRequest { res_tx });
    }

    /// Takes the channel of the request `id` out of the pending requests.
    pub fn pop_request(&mut self, id: Id) -> (res_tx: Option<S>)
        ensures
            res_tx == match popped(old(self).requests(), id) {
                Some(request) => Some(request.res_tx),
                None => None,
            },
            final(self).requests() == without(old(self).requests(), id),
            final(self).same_node(old(self)),
    {
        match self.inner.handler.pop_request(id) {
            Some(request) => Some(request.res_tx),
            None => None,
        }
    }

    /// Takes the requests named in `ids` out of the pending requests, to
    /// be failed: the node that would have answered them is gone, and each
    /// caller is to learn that it is unreachable.
    pub fn fail_requests(&mut self, ids: &Vec<Id>) -> (failed: (Vec<RemoteRequest<S>>, RemoteResponse))
        ensures
            (final(self).requests(), failed.0@) == taken(old(self).requests(), ids@),
            failed.1 == RemoteResponse::Error(crate::actor::ActorRefErr::NodeUnreachable),
            final(self).same_node(old(self)),
    {
        self.inner.handler.fail_requests(ids)
    }

    /// Builds the request `id` for a handler on another node: the channel
    /// on which the caller waits, if it waits, is registered under `id`,
    /// and the request carries the text of `id`.
    pub fn request_with_id(
        &mut self,
        id: Id,
        handler_type: String,
        actor_id: ActorId,
        message: Vec<u8>,
        res_tx: Option<S>,
        trace_id: String,
    ) -> (request: MessageRequest)
        ensures
            request.message_id@ == uuid_text(id),
            uuid_parse(request.message_id@) == Some(id),
            request.handler_type == handler_type,
            request.actor_id == actor_id,
            request.message == message,
            request.trace_id == trace_id,
            request.origin_node_id == old(self).id(),
            request.requires_response == res_tx.is_some(),
            final(self).requests() == match res_tx {
                Some(res_tx) => pushed(old(self).requests(), id, (RemoteRequest { res_tx })),
                None => old(self).requests(),
            },
            final(self).same_node(old(self)),
    {
        let requires_response = res_tx.is_some();
        match res_tx {
            Some(res_tx) => {
                self.push_request(id, res_tx);
            },
            None => {},
        }
        MessageRequest {
            message_id: format_uuid(id),
            handler_type,
            actor_id,
            origin_node_id: self.inner.node_id,
            requires_response,
            message,
            trace_id,
        }
    }

    /// Prepares a call of a handler on another node: the request gets a
    /// fresh identifier, and is built under it.
    pub fn create_request(
        &mut self,
        handler_type: String,
        actor_id: ActorId,
        message: Vec<u8>,
        res_tx: Option<S>,
        trace_id: String,
    ) -> (request: MessageRequest)
        ensures
            request.handler_type == handler_type,
            request.actor_id == actor_id,
            request.message == message,
            request.trace_id == trace_id,
            request.origin_node_id == old(self).id(),
            request.requires_response == res_tx.is_some(),
            uuid_parse(request.message_id@) matches Some(id) && final(self).requests() == match res_tx {
                Some(res_tx) => pushed(old(self).requests(), id, (RemoteRequest { res_tx })),
                None => old(self).requests(),
            },
            final(self).same_node(old(self)),
    {
        let id = random_uuid();
        self.request_with_id(id, handler_type, actor_id, message, res_tx, trace_id)
    }

    /// Builds the ping `id` for a peer: the channel for the pong is
    /// registered under `id`, and the ping says whether this node has shut
    /// down.
    pub fn ping_with_id(&mut self, id: Id, res_tx: S) -> (ping: PingEvent)
        ensures
            ping.message_id@ == uuid_text(id),
            uuid_parse(ping.message_id@) == Some(id),
            ping.node_id == old(self).id(),
            ping.system_terminated == old(self).spec_actor_system().terminated(),
            final(self).requests() == pushed(old(self).requests(), id, (RemoteRequest { res_tx })),
            final(self).same_node(old(self)),
    {
        self.push_request(id, res_tx);
        PingEvent {
            message_id: format_uuid(id),
            node_id: self.inner.node_id,
            system_terminated: self.inner.inner.is_terminated(),
        }
    }

    /// Prepares a probe of a peer: the ping gets a fresh identifier and is
    /// built under it. The last ping of a node that has shut down tells its
    /// peers so.
    pub fn create_ping(&mut self, res_tx: S) -> (ping: PingEvent)
        ensures
            ping.node_id == old(self).id(),
            ping.system_terminated == old(self).spec_actor_system().terminated(),
            uuid_parse(ping.message_id@) matches Some(id) && final(self).requests() == pushed(
                old(self).requests(),
                id,
                (RemoteRequest { res_tx }),
            ),
            final(self).same_node(old(self)),
    {
        let id = random_uuid();
        self.ping_with_id(id, res_tx)
    }

    /// How many requests of this node wait for a reply.
    pub fn inflight_remote_request_count(&self) -> (n: usize)
        ensures
            n == self.requests().len(),
    {
        self.inner.handler.inflight_request_count()
    }
}

} // verus!
