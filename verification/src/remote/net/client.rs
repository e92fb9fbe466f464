//! The client side of a connection.
pub mod receive;

use crate::actor::{Actor, ActorRefErr, LocalActorRef};
use crate::remote::cluster::node::RemoteNode;
use crate::remote::net::message::SessionEvent;
use crate::remote::net::proto::{ClientType, SessionHandshake};
use crate::remote::net::server::session::{to_wire_nodes, wire_nodes};
use crate::remote::system::RemoteActorSystem;
use crate::NodeId;
use std::collections::HashMap;
use vstd::prelude::*;
use vstd::string::StringExecFns;

verus! {

/// The actor that owns one outbound connection.
pub struct RemoteClient;

impl Actor for RemoteClient {
    open spec fn type_tag() -> Seq<char> {
        "RemoteClient"@
    }

    fn actor_type() -> (name: String) {
        String::from_str("RemoteClient")
    }
}

/// The handshake that a client sends once the server has identified
/// itself: the identity of this node and the members that it knows.
pub fn client_handshake<S>(
    ctx: &RemoteActorSystem<S>,
    nodes: &Vec<RemoteNode>,
    client_type: ClientType,
    trace_id: String,
) -> (handshake: SessionHandshake)
    ensures
        handshake.node_id == ctx.id(),
        handshake.node_tag@ == ctx.tag(),
        handshake.token@.len() == 0,
        handshake.client_type == client_type,
        handshake.trace_id == trace_id,
        handshake.node_started_at == Some(ctx.start()),
        handshake.nodes@ == wire_nodes(nodes@),
{
    SessionHandshake {
        node_id: ctx.node_id(),
        node_tag: String::from_str(ctx.node_tag()),
        token: Vec::new(),
        client_type,
        trace_id,
        node_started_at: Some(*ctx.started_at()),
        nodes: to_wire_nodes(nodes),
    }
}

/// Tells the registry that a connection to a node is up.
pub struct RegisterClient(pub NodeId, pub LocalActorRef<RemoteClient>);

/// Asks the registry to send an event to a node.
pub struct ClientWrite(pub NodeId, pub SessionEvent);

/// What becomes of an event for a node.
pub enum ClientWriteAction {
    /// Hand the event to the client of the node.
    Forward { client: LocalActorRef<RemoteClient>, event: SessionEvent },
    /// No client is known yet: hold the event for a moment and try once
    /// more.
    Retry(ClientWrite),
    /// No client is known, and there was a second try: whoever waits for an
    /// answer to the event gets this error.
    Fail { event: SessionEvent, error: ActorRefErr },
}

/// The outbound connections of a node, by the node they lead to.
pub struct RemoteClientRegistry {
    clients: HashMap<NodeId, LocalActorRef<RemoteClient>>,
}

impl Actor for RemoteClientRegistry {
    open spec fn type_tag() -> Seq<char> {
        "RemoteClientRegistry"@
    }

    fn actor_type() -> (name: String) {
        String::from_str("RemoteClientRegistry")
    }
}

/// What becomes of an event for `node`, given whether it was held back
/// once already.
pub open spec fn write_action(
    clients: Map<NodeId, LocalActorRef<RemoteClient>>,
    write: ClientWrite,
    retried: bool,
) -> ClientWriteAction {
    if clients.contains_key(write.0) {
        ClientWriteAction::Forward { client: clients[write.0], event: write.1 }
    } else if retried {
        ClientWriteAction::Fail { event: write.1, error: ActorRefErr::NodeUnreachable }
    } else {
        ClientWriteAction::Retry(write)
    }
}

impl View for RemoteClientRegistry {
    type V = Map<NodeId, LocalActorRef<RemoteClient>>;

    closed spec fn view(&self) -> Map<NodeId, LocalActorRef<RemoteClient>> {
        self.clients@
    }
}

impl RemoteClientRegistry {
    /// A registry without connections.
    pub fn new() -> (registry: RemoteClientRegistry)
        ensures
            registry@ == Map::<NodeId, LocalActorRef<RemoteClient>>::empty(),
    {
        RemoteClientRegistry { clients: HashMap::new() }
    }

    /// Notes the client of a node; an earlier client of the node gives way.
    pub fn handle_register(&mut self, message: RegisterClient)
        ensures
            final(self)@ == old(self)@.insert(message.0, message.1),
    {
        self.clients.insert(message.0, message.1);
    }

    /// Forgets the client of a node whose connection is gone.
    pub fn remove_client(&mut self, node_id: NodeId) -> (known: bool)
        ensures
            final(self)@ == old(self)@.remove(node_id),
            known == old(self)@.contains_key(node_id),
    {
        self.clients.remove(&node_id).is_some()
    }

    /// Decides what becomes of an event for a node. `retried` says whether
    /// the event was held back once already.
    pub fn handle_write(&self, message: ClientWrite, retried: bool) -> (action: ClientWriteAction)
        ensures
            action == write_action(self@, message, retried),
    {
        match self.clients.get(&message.0) {
            Some(client) => ClientWriteAction::Forward { client: client.clone(), event: message.1 },
            None => if retried {
                ClientWriteAction::Fail { event: message.1, error: ActorRefErr::NodeUnreachable }
            } else {
                ClientWriteAction::Retry(message)
            },
        }
    }
}

} // verus!
