//! The remote context of a node: its handlers by name, its pending
//! requests, the nodes it knows and the connections to them.
use crate::actor::ActorId;
use crate::ident::Id;
use crate::remote::cluster::node::{RemoteNode, Timestamp};
use crate::remote::cluster::registry::{Membership, RemoteRegistry};
use crate::remote::handler::{popped, pushed, without, RemoteHandler, RemoteRequest};
use crate::remote::net::client::{
    write_action, ClientWrite, ClientWriteAction, RegisterClient, RemoteClient,
    RemoteClientRegistry,
};
use crate::remote::net::message::SessionEvent;
use crate::actor::LocalActorRef;
use crate::table::Table;
use crate::NodeId;
use vstd::prelude::*;

verus! {

/// Why a remote call has no result.
#[derive(Clone, Copy, Debug, PartialEq, Eq, Structural)]
pub enum RemoteActorError {
    ActorUnavailable,
}

/// A message on its way to a remote handler.
pub struct RemoteHandlerMessage<M> {
    pub actor_id: ActorId,
    pub handler_type: String,
    pub message: M,
}

/// The handlers of a node: `H` handles the messages of one kind for one
/// kind of actor, `F` creates the actors of one kind.
pub struct RemoteHandlerTypes<H, F> {
    message_handlers: Table<H>,
    actor_handlers: Table<F>,
    handler_names: Table<String>,
}

impl<H, F> RemoteHandlerTypes<H, F> {
    /// The message handlers by the name under which they are called.
    pub closed spec fn handlers(&self) -> Map<Seq<char>, H> {
        self.message_handlers.map()
    }

    /// The actor handlers by the kind of actor that they create.
    pub closed spec fn factories(&self) -> Map<Seq<char>, F> {
        self.actor_handlers.map()
    }

    /// The name of the handler for each marker of an actor and a message.
    pub closed spec fn names(&self) -> Map<Seq<char>, String> {
        self.handler_names.map()
    }

    /// No handlers.
    pub fn new() -> (types: RemoteHandlerTypes<H, F>)
        ensures
            types.handlers() == Map::<Seq<char>, H>::empty(),
            types.factories() == Map::<Seq<char>, F>::empty(),
            types.names() == Map::<Seq<char>, String>::empty(),
    {
        RemoteHandlerTypes {
            message_handlers: Table::new(),
            actor_handlers: Table::new(),
            handler_names: Table::new(),
        }
    }

    /// Registers the handler for a marker under a name.
    pub fn with_handler(&mut self, marker: String, identifier: String, handler: H)
        ensures
            final(self).handlers() == old(self).handlers().insert(identifier@, handler),
            final(self).names() == old(self).names().insert(marker@, identifier),
            final(self).factories() == old(self).factories(),
    {
        self.message_handlers.insert(identifier.clone(), handler);
        self.handler_names.insert(marker, identifier);
    }

    /// Registers the handler that creates actors of a kind.
    pub fn with_actor(&mut self, actor_type: String, handler: F)
        ensures
            final(self).factories() == old(self).factories().insert(actor_type@, handler),
            final(self).handlers() == old(self).handlers(),
            final(self).names() == old(self).names(),
    {
        self.actor_handlers.insert(actor_type, handler);
    }

    /// The handler that is called `identifier`.
    pub fn message_handler(&self, identifier: &str) -> (handler: Option<&H>)
        ensures
            handler == if self.handlers().contains_key(identifier@) {
                Some(&self.handlers()[identifier@])
            } else {
                None
            },
    {
        self.message_handlers.get(identifier)
    }

    /// The handler that creates actors of the kind `actor_type`.
    pub fn actor_handler(&self, actor_type: &str) -> (handler: Option<&F>)
        ensures
            handler == if self.factories().contains_key(actor_type@) {
                Some(&self.factories()[actor_type@])
            } else {
                None
            },
    {
        self.actor_handlers.get(actor_type)
    }

    /// The name of the handler for a marker.
    pub fn handler_name(&self, marker: &str) -> (name: Option<String>)
        ensures
            name == if self.names().contains_key(marker@) {
                Some(self.names()[marker@])
            } else {
                None
            },
    {
        match self.handler_names.get(marker) {
            Some(name) => Some(name.clone()),
            None => None,
        }
    }
}

/// The remote context of a node.
pub struct RemoteActorContext<S, H, F> {
    node_id: NodeId,
    handler: RemoteHandler<S>,
    registry: RemoteRegistry,
    clients: RemoteClientRegistry,
    types: RemoteHandlerTypes<H, F>,
}

/// What a call of a handler comes to: the answer of the handler, where one
/// is registered under the name and has answered; else the actor is
/// unavailable.
pub open spec fn call_result(known: bool, answer: Option<Vec<u8>>) -> Result<Vec<u8>, RemoteActorError> {
    match answer {
        Some(res) => if known {
            Ok(res)
        } else {
            Err(RemoteActorError::ActorUnavailable)
        },
        None => Err(RemoteActorError::ActorUnavailable),
    }
}

impl<S, H, F> RemoteActorContext<S, H, F> {
    /// The identifier of the node.
    pub closed spec fn id(&self) -> NodeId {
        self.node_id
    }

    /// The handlers of the node.
    pub closed spec fn types(&self) -> RemoteHandlerTypes<H, F> {
        self.types
    }

    /// The requests of the node that wait for a reply.
    pub closed spec fn requests(&self) -> Map<Id, RemoteRequest<S>> {
        self.handler@
    }

    /// The nodes that the node knows.
    pub closed spec fn membership(&self) -> Membership {
        self.registry@
    }

    /// The connections of the node.
    pub closed spec fn clients(&self) -> Map<NodeId, LocalActorRef<RemoteClient>> {
        self.clients@
    }

    /// A context with the handlers `types`, without requests, nodes and
    /// connections, which remembers no node as terminated.
    pub fn new(node_id: NodeId, types: RemoteHandlerTypes<H, F>) -> (ctx: RemoteActorContext<S, H, F>)
        ensures
            ctx.id() == node_id,
            ctx.types() == types,
            ctx.requests() == Map::<Id, RemoteRequest<S>>::empty(),
            ctx.membership().wf(),
            ctx.membership().members == Seq::<RemoteNode>::empty(),
            ctx.membership().terminated == Map::<NodeId, Option<Timestamp>>::empty(),
            ctx.clients() == Map::<NodeId, LocalActorRef<RemoteClient>>::empty(),
    {
        RemoteActorContext {
            node_id,
            handler: RemoteHandler::new(),
            registry: RemoteRegistry::new(),
            clients: RemoteClientRegistry::new(),
            types,
        }
    }

    pub fn node_id(&self) -> (id: NodeId)
        ensures
            id == self.id(),
    {
        self.node_id
    }

    /// The result of a message for the handler called `identifier`.
    /// `answer` is what the handler has answered; nothing where it has not
    /// answered, as when there is no such handler.
    pub fn handle_message(&self, identifier: &str, answer: Option<Vec<u8>>) -> (result: Result<
        Vec<u8>,
        RemoteActorError,
    >)
        ensures
            result == call_result(self.types().handlers().contains_key(identifier@), answer),
    {
        match self.types.message_handler(identifier) {
            Some(_) => match answer {
                Some(res) => Ok(res),
                None => Err(RemoteActorError::ActorUnavailable),
            },
            None => Err(RemoteActorError::ActorUnavailable),
        }
    }

    /// The result of a request to create an actor of the kind `actor_type`.
    /// `answer` is what the handler has answered, if anything.
    pub fn create_actor(&self, actor_type: &str, answer: Option<Vec<u8>>) -> (result: Result<
        Vec<u8>,
        RemoteActorError,
    >)
        ensures
            result == call_result(self.types().factories().contains_key(actor_type@), answer),
    {
        match self.types.actor_handler(actor_type) {
            Some(_) => match answer {
                Some(res) => Ok(res),
                None => Err(RemoteActorError::ActorUnavailable),
            },
            None => Err(RemoteActorError::ActorUnavailable),
        }
    }

    /// The name of the handler for a marker of an actor and a message.
    pub fn handler_name(&self, marker: &str) -> (name: Option<String>)
        ensures
            name == if self.types().names().contains_key(marker@) {
                Some(self.types().names()[marker@])
            } else {
                None
            },
    {
        self.types.handler_name(marker)
    }

    /// Addresses a message to the handler that is registered for its
    /// marker; nothing where none is.
    pub fn create_message<M>(&self, marker: &str, id: &ActorId, message: M) -> (addressed: Option<
        RemoteHandlerMessage<M>,
    >)
        ensures
            addressed == if self.types().names().contains_key(marker@) {
                Some(
                    RemoteHandlerMessage {
                        actor_id: *id,
                        handler_type: self.types().names()[marker@],
                        message,
                    },
                )
            } else {
                None
            },
    {
        match self.handler_name(marker) {
            Some(handler_type) => Some(
                RemoteHandlerMessage { actor_id: id.clone(), handler_type, message },
            ),
            None => None,
        }
    }

    /// Notes the client of a node.
    pub fn register_client(&mut self, node_id: NodeId, client: LocalActorRef<RemoteClient>)
        ensures
            final(self).clients() == old(self).clients().insert(node_id, client),
            final(self).requests() == old(self).requests(),
            final(self).membership() == old(self).membership(),
            final(self).types() == old(self).types(),
            final(self).id() == old(self).id(),
    {
        self.clients.handle_register(RegisterClient(node_id, client));
    }

    /// Lets nodes ask to join.
    pub fn register_nodes(&mut self, nodes: Vec<RemoteNode>)
        requires
            old(self).membership().wf(),
        ensures
            final(self).membership() == old(self).membership().registered_all(nodes@),
            final(self).membership().wf(),
            final(self).requests() == old(self).requests(),
            final(self).clients() == old(self).clients(),
            final(self).types() == old(self).types(),
            final(self).id() == old(self).id(),
    {
        self.registry.register_nodes(nodes);
    }

    /// Lets nodes ask to join, for a caller that does not wait.
    pub fn notify_register_nodes(&mut self, nodes: Vec<RemoteNode>)
        requires
            old(self).membership().wf(),
        ensures
            final(self).membership() == old(self).membership().registered_all(nodes@),
            final(self).membership().wf(),
            final(self).requests() == old(self).requests(),
            final(self).clients() == old(self).clients(),
            final(self).types() == old(self).types(),
            final(self).id() == old(self).id(),
    {
        self.registry.register_nodes(nodes);
    }

    /// Lets a node ask to join.
    pub fn register_node(&mut self, node: RemoteNode)
        requires
            old(self).membership().wf(),
        ensures
            final(self).membership() == old(self).membership().registered(node),
            final(self).membership().wf(),
            final(self).requests() == old(self).requests(),
            final(self).clients() == old(self).clients(),
            final(self).types() == old(self).types(),
            final(self).id() == old(self).id(),
    {
        self.registry.register_node(node);
    }

    /// The nodes that the node knows.
    pub fn get_nodes(&self) -> (nodes: Vec<RemoteNode>)
        ensures
            nodes@ == self.membership().members,
    {
        self.registry.get_nodes()
    }

    /// Decides what becomes of an event for a node.
    pub fn send_message(&self, node_id: NodeId, message: SessionEvent, retried: bool) -> (action:
        ClientWriteAction)
        ensures
            action == write_action(self.clients(), ClientWrite(node_id, message), retried),
    {
        self.clients.handle_write(ClientWrite(node_id, message), retried)
    }

    /// Registers a request that waits for a reply.
    pub fn push_request(&mut self, id: Id, res_tx: S)
        ensures
            final(self).requests() == pushed(old(self).requests(), id, (RemoteRequest { res_tx })),
            final(self).clients() == old(self).clients(),
            final(self).membership() == old(self).membership(),
            final(self).types() == old(self).types(),
            final(self).id() == old(self).id(),
    {
        self.handler.push_request(id, RemoteRequest { res_tx });
    }

    /// Takes the channel of a request out of the pending requests.
    pub fn pop_request(&mut self, id: Id) -> (res_tx: Option<S>)
        ensures
            res_tx == match popped(old(self).requests(), id) {
                Some(request) => Some(request.res_tx),
                None => None,
            },
            final(self).requests() == without(old(self).requests(), id),
            final(self).clients() == old(self).clients(),
            final(self).membership() == old(self).membership(),
            final(self).types() == old(self).types(),
            final(self).id() == old(self).id(),
    {
        match self.handler.pop_request(id) {
            Some(request) => Some(request.res_tx),
            None => None,
        }
    }
}

/// A message for a handler that is not registered finds the actor
/// unavailable, whatever is said to have been answered.
pub proof fn unknown_handler_is_unavailable(answer: Option<Vec<u8>>)
    ensures
        call_result(false, answer) == Err::<Vec<u8>, RemoteActorError>(
            RemoteActorError::ActorUnavailable,
        ),
{
}

} // verus!
