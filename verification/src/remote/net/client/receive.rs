//! What a client does with the events that its server sends.
use crate::actor::message::Message;
use crate::actor::LocalActorRef;
use crate::ident::{parse_uuid, uuid_parse, Id};
use crate::remote::cluster::node::{NodeIdentity, RemoteNode, SystemCapabilities, Timestamp};
use crate::remote::handler::{popped, without, RemoteRequest};
use crate::remote::net::client::RemoteClient;
use crate::remote::net::message::ClientEvent;
use crate::remote::net::proto;
use crate::remote::net::proto::PongEvent;
use crate::remote::net::server::session::{
    is_result_write, wire_node, wire_nodes, Discarded, SessionWrite,
};
use crate::remote::system::RemoteActorSystem;
use crate::remote::RemoteResponse;
use crate::NodeId;
use vstd::prelude::*;

verus! {

/// Reads the events of one server. `T` is the channel on which the one who
/// opened the connection waits for the server's identity.
pub struct ClientMessageReceiver<T> {
    actor_ref: LocalActorRef<RemoteClient>,
    identity_sender: Option<T>,
    should_close: bool,
    addr: String,
}

/// Tells the client actor that the server has completed the handshake.
pub struct HandshakeAcknowledge {
    pub node_id: NodeId,
    pub node_tag: String,
    pub node_started_at: Timestamp,
    pub known_nodes: Vec<RemoteNode>,
}

impl Message for HandshakeAcknowledge {
    type Result = ();
}

/// Tells the client actor that the connection is gone.
pub struct Disconnected;

impl Message for Disconnected {
    type Result = ();
}

/// What the runtime is to do after an event of the server.
pub enum ClientAction<S, T> {
    /// Nothing follows from the event.
    Nothing,
    /// Hand the identity of the server to the one who waits for it.
    Identified { identity_sender: T, identity: NodeIdentity },
    /// Tell the client actor that the handshake is complete.
    Acknowledge(HandshakeAcknowledge),
    /// Complete the request that waited for this reply.
    Respond { res_tx: S, response: RemoteResponse },
    /// Complete the probe that waited for this pong with the encoding of
    /// `pong`.
    Pong { res_tx: S, pong: PongEvent },
    /// Drop the event.
    Discard(Discarded),
}

/// The record of a node that a peer has listed.
pub open spec fn node_of(n: proto::RemoteNode) -> RemoteNode {
    RemoteNode { id: n.node_id, addr: n.addr, tag: n.tag, node_started_at: n.node_started_at }
}

/// The record of the node that has sent an identity.
pub open spec fn node_of_identity(n: proto::NodeIdentity) -> RemoteNode {
    RemoteNode { id: n.node_id, addr: n.addr, tag: n.node_tag, node_started_at: n.node_started_at }
}

impl From<proto::RemoteNode> for RemoteNode {
    fn from(n: proto::RemoteNode) -> (node: RemoteNode) {
        RemoteNode { id: n.node_id, addr: n.addr, tag: n.tag, node_started_at: n.node_started_at }
    }
}

impl vstd::std_specs::convert::FromSpecImpl<proto::RemoteNode> for RemoteNode {
    open spec fn obeys_from_spec() -> bool {
        true
    }

    open spec fn from_spec(n: proto::RemoteNode) -> RemoteNode {
        node_of(n)
    }
}

impl From<&proto::NodeIdentity> for RemoteNode {
    fn from(n: &proto::NodeIdentity) -> (node: RemoteNode) {
        RemoteNode {
            id: n.node_id,
            addr: n.addr.clone(),
            tag: n.node_tag.clone(),
            node_started_at: n.node_started_at,
        }
    }
}

impl vstd::std_specs::convert::FromSpecImpl<&proto::NodeIdentity> for RemoteNode {
    open spec fn obeys_from_spec() -> bool {
        true
    }

    open spec fn from_spec(n: &proto::NodeIdentity) -> RemoteNode {
        node_of_identity(*n)
    }
}

/// The peers other than the node `id`.
pub open spec fn other_than(id: NodeId) -> spec_fn(proto::RemoteNode) -> bool {
    |n: proto::RemoteNode| n.node_id != id
}

/// The records of the listed nodes that `keep` lets through, in order.
pub open spec fn listed_nodes(
    listed: Seq<proto::RemoteNode>,
    keep: spec_fn(proto::RemoteNode) -> bool,
) -> Seq<RemoteNode> {
    listed.filter(keep).map_values(|n: proto::RemoteNode| node_of(n))
}

/// Every listed node.
pub open spec fn any_node() -> spec_fn(proto::RemoteNode) -> bool {
    |n: proto::RemoteNode| true
}

/// The records of the nodes that a peer has listed, without the node
/// `except` where one is named.
pub fn nodes_from(listed: &Vec<proto::RemoteNode>, except: Option<NodeId>) -> (nodes: Vec<RemoteNode>)
    ensures
        nodes@ == listed_nodes(
            listed@,
            match except {
                Some(id) => other_than(id),
                None => any_node(),
            },
        ),
{
    let ghost keep = match except {
        Some(id) => other_than(id),
        None => any_node(),
    };
    let mut nodes: Vec<RemoteNode> = Vec::new();
    let mut i: usize = 0;
    proof {
        assert(listed@.take(0) =~= Seq::<proto::RemoteNode>::empty());
        assert(listed@.take(0).filter(keep) =~= Seq::<proto::RemoteNode>::empty());
        assert(nodes@ =~= listed_nodes(listed@.take(0), keep));
    }
    while i < listed.len()
        invariant
            i <= listed.len(),
            keep == match except {
                Some(id) => other_than(id),
                None => any_node(),
            },
            nodes@ == listed_nodes(listed@.take(i as int), keep),
        decreases listed.len() - i,
    {
        let n = &listed[i];
        let kept = match except {
            Some(id) => n.node_id != id,
            None => true,
        };
        proof {
            let seen = listed@.take(i as int);
            assert(listed@.take(i as int + 1) == seen.push(*n));
            Seq::lemma_filter_push(seen, *n, keep);
            assert(kept == keep(*n));
        }
        if kept {
            nodes.push(
                RemoteNode {
                    id: n.node_id,
                    addr: n.addr.clone(),
                    tag: n.tag.clone(),
                    node_started_at: n.node_started_at,
                },
            );
            proof {
                let seen = listed@.take(i as int);
                assert(nodes@ =~= listed_nodes(seen.push(*n), keep));
            }
        }
        i += 1;
    }
    proof {
        assert(listed@.take(i as int) == listed@);
    }
    nodes
}

/// Whether `identity` is what the server's identity frame says: the node
/// itself, the peers it lists, and what it offers, which is nothing where
/// the frame does not say.
pub open spec fn is_identity_of(identity: NodeIdentity, frame: proto::NodeIdentity) -> bool {
    &&& identity.node == node_of_identity(frame)
    &&& identity.peers@ == listed_nodes(frame.peers@, any_node())
    &&& match frame.capabilities {
        Some(c) => identity.capabilities.actors == c.actors && identity.capabilities.messages
            == c.messages,
        None => identity.capabilities.actors@.len() == 0 && identity.capabilities.messages@.len()
            == 0,
    }
}

/// Whether `ack` acknowledges the server's handshake frame: the server's
/// identity, its start time or else `now`, and the nodes it knows but for
/// itself.
pub open spec fn is_acknowledge_of(
    ack: HandshakeAcknowledge,
    frame: proto::ClientHandshake,
    now: Timestamp,
) -> bool {
    &&& ack.node_id == frame.node_id
    &&& ack.node_tag == frame.node_tag
    &&& ack.node_started_at == match frame.node_started_at {
        Some(at) => at,
        None => now,
    }
    &&& ack.known_nodes@ == listed_nodes(frame.nodes@, other_than(frame.node_id))
}

/// Reads the identity frame of a server.
pub fn read_identity(frame: proto::NodeIdentity) -> (identity: NodeIdentity)
    ensures
        is_identity_of(identity, frame),
{
    let peers = nodes_from(&frame.peers, None);
    let capabilities = match frame.capabilities {
        Some(c) => SystemCapabilities { actors: c.actors, messages: c.messages },
        None => SystemCapabilities::empty(),
    };
    NodeIdentity {
        node: RemoteNode {
            id: frame.node_id,
            addr: frame.addr,
            tag: frame.node_tag,
            node_started_at: frame.node_started_at,
        },
        peers,
        capabilities,
    }
}

/// Reads the handshake frame of a server.
pub fn read_handshake(frame: proto::ClientHandshake, now: Timestamp) -> (ack: HandshakeAcknowledge)
    ensures
        is_acknowledge_of(ack, frame, now),
{
    let known_nodes = nodes_from(&frame.nodes, Some(frame.node_id));
    HandshakeAcknowledge {
        node_id: frame.node_id,
        node_tag: frame.node_tag,
        node_started_at: match frame.node_started_at {
            Some(at) => at,
            None => now,
        },
        known_nodes,
    }
}

/// What completing a request under `id` comes to on the client side.
pub open spec fn completes<S, T>(
    requests: Map<Id, RemoteRequest<S>>,
    id: Option<Id>,
    response: RemoteResponse,
) -> (Map<Id, RemoteRequest<S>>, ClientAction<S, T>) {
    match id {
        Some(id) => match popped(requests, id) {
            Some(request) => (
                without(requests, id),
                ClientAction::Respond { res_tx: request.res_tx, response },
            ),
            None => (without(requests, id), ClientAction::Discard(Discarded::UnknownRequest)),
        },
        None => (requests, ClientAction::Discard(Discarded::MalformedMessageId)),
    }
}

/// What a pong under `id` comes to: the probe that waited is completed
/// with the pong itself.
pub open spec fn completes_probe<S, T>(
    requests: Map<Id, RemoteRequest<S>>,
    id: Option<Id>,
    pong: PongEvent,
) -> (Map<Id, RemoteRequest<S>>, ClientAction<S, T>) {
    match id {
        Some(id) => match popped(requests, id) {
            Some(request) => (
                without(requests, id),
                ClientAction::Pong { res_tx: request.res_tx, pong },
            ),
            None => (without(requests, id), ClientAction::Discard(Discarded::UnknownRequest)),
        },
        None => (requests, ClientAction::Discard(Discarded::MalformedMessageId)),
    }
}

/// Completes the request that waits under `id`, if any does.
pub fn complete_request<S, T>(
    sys: &mut RemoteActorSystem<S>,
    id: Option<Id>,
    response: RemoteResponse,
) -> (action: ClientAction<S, T>)
    ensures
        (final(sys).requests(), action) == completes::<S, T>(old(sys).requests(), id, response),
        final(sys).same_node(old(sys)),
{
    match id {
        Some(id) => match sys.pop_request(id) {
            Some(res_tx) => ClientAction::Respond { res_tx, response },
            None => ClientAction::Discard(Discarded::UnknownRequest),
        },
        None => ClientAction::Discard(Discarded::MalformedMessageId),
    }
}

/// Completes the probe that waits under `id`, if any does.
pub fn complete_probe<S, T>(sys: &mut RemoteActorSystem<S>, id: Option<Id>, pong: PongEvent) -> (action:
    ClientAction<S, T>)
    ensures
        (final(sys).requests(), action) == completes_probe::<S, T>(old(sys).requests(), id, pong),
        final(sys).same_node(old(sys)),
{
    match id {
        Some(id) => match sys.pop_request(id) {
            Some(res_tx) => ClientAction::Pong { res_tx, pong },
            None => ClientAction::Discard(Discarded::UnknownRequest),
        },
        None => ClientAction::Discard(Discarded::MalformedMessageId),
    }
}

/// Whether `action`, with the requests and the waiting channel that are
/// left, is what an event of the server comes to.
///
/// The identity goes to the one who waits for it, once. A handshake is
/// acknowledged to the client actor. A result, a failure or a pong completes
/// the request that it names and is dropped where none waits. A ping needs
/// no answer.
pub open spec fn client_step<S, T>(
    msg: ClientEvent,
    now: Timestamp,
    waiting: Option<T>,
    requests: Map<Id, RemoteRequest<S>>,
    waiting_after: Option<T>,
    requests_after: Map<Id, RemoteRequest<S>>,
    action: ClientAction<S, T>,
) -> bool {
    match msg {
        ClientEvent::Identity(frame) => {
            &&& requests_after == requests
            &&& waiting_after.is_none()
            &&& match waiting {
                Some(tx) => {
                    &&& action matches ClientAction::Identified { identity_sender, identity }
                    &&& identity_sender == tx
                    &&& is_identity_of(identity, frame)
                },
                None => action is Nothing,
            }
        },
        ClientEvent::Handshake(frame) => {
            &&& requests_after == requests
            &&& waiting_after == waiting
            &&& action matches ClientAction::Acknowledge(ack)
            &&& is_acknowledge_of(ack, frame, now)
        },
        ClientEvent::Result(result) => waiting_after == waiting && (requests_after, action)
            == completes::<S, T>(
            requests,
            uuid_parse(result.message_id@),
            RemoteResponse::Reply(result.result),
        ),
        ClientEvent::Error(failure) => waiting_after == waiting && (requests_after, action)
            == completes::<S, T>(
            requests,
            uuid_parse(failure.message_id@),
            RemoteResponse::Error(failure.error),
        ),
        ClientEvent::Ping(_) => waiting_after == waiting && requests_after == requests
            && action is Nothing,
        ClientEvent::Pong(pong) => waiting_after == waiting && (requests_after, action)
            == completes_probe::<S, T>(requests, uuid_parse(pong.message_id@), pong),
    }
}

impl<T> ClientMessageReceiver<T> {
    /// The client actor that the receiver reads for.
    pub closed spec fn client(&self) -> LocalActorRef<RemoteClient> {
        self.actor_ref
    }

    /// The channel on which the server's identity is awaited, until it
    /// has come.
    pub closed spec fn waiting(&self) -> Option<T> {
        self.identity_sender
    }

    /// Whether reading is to end.
    pub closed spec fn closing(&self) -> bool {
        self.should_close
    }

    /// The address of the server.
    pub closed spec fn server_addr(&self) -> String {
        self.addr
    }

    pub fn new(actor_ref: LocalActorRef<RemoteClient>, identity_sender: T, addr: String) -> (receiver:
        ClientMessageReceiver<T>)
        ensures
            receiver.client() == actor_ref,
            receiver.waiting() == Some(identity_sender),
            receiver.server_addr() == addr,
            !receiver.closing(),
    {
        let identity_sender = Some(identity_sender);
        Self { actor_ref, identity_sender, addr, should_close: false }
    }

    /// Takes one event of the server and says what is to be done. `now` is
    /// the time to take for a server that does not say when it started.
    pub fn on_receive<S>(
        &mut self,
        msg: ClientEvent,
        sys: &mut RemoteActorSystem<S>,
        now: Timestamp,
    ) -> (action: ClientAction<S, T>)
        ensures
            client_step(
                msg,
                now,
                old(self).waiting(),
                old(sys).requests(),
                final(self).waiting(),
                final(sys).requests(),
                action,
            ),
            final(self).client() == old(self).client(),
            final(self).closing() == old(self).closing(),
            final(self).server_addr() == old(self).server_addr(),
            final(sys).same_node(old(sys)),
    {
        match msg {
            ClientEvent::Identity(frame) => {
                match self.identity_sender.take() {
                    Some(identity_sender) => ClientAction::Identified {
                        identity_sender,
                        identity: read_identity(frame),
                    },
                    None => ClientAction::Nothing,
                }
            },
            ClientEvent::Handshake(frame) => ClientAction::Acknowledge(read_handshake(frame, now)),
            ClientEvent::Result(result) => {
                let id = parse_uuid(result.message_id.as_str());
                complete_request(sys, id, RemoteResponse::Reply(result.result))
            },
            ClientEvent::Error(failure) => {
                let id = parse_uuid(failure.message_id.as_str());
                complete_request(sys, id, RemoteResponse::Error(failure.error))
            },
            ClientEvent::Ping(_) => ClientAction::Nothing,
            ClientEvent::Pong(pong) => {
                let id = parse_uuid(pong.message_id.as_str());
                complete_probe(sys, id, pong)
            },
        }
    }

    /// The stream has ended: the client actor is to be told.
    pub fn on_close(&self) -> (message: (LocalActorRef<RemoteClient>, Disconnected))
        ensures
            message.0 == self.client(),
    {
        (self.actor_ref.clone(), Disconnected)
    }

    /// Ends reading.
    pub fn close(&mut self)
        ensures
            final(self).closing(),
            final(self).client() == old(self).client(),
            final(self).waiting() == old(self).waiting(),
            final(self).server_addr() == old(self).server_addr(),
    {
        self.should_close = true;
    }

    pub fn should_close(&self) -> (closing: bool)
        ensures
            closing == self.closing(),
    {
        self.should_close
    }
}

/// A result finds the request that it answers: where a session writes the
/// result of the request `id` and a request waits under `id` on the node
/// that receives it, the channel of that request is completed with the
/// result, and the request waits no longer.
pub proof fn result_completes_its_request<S, T>(
    write: SessionWrite,
    session_id: Id,
    id: Id,
    res: Vec<u8>,
    now: Timestamp,
    waiting: Option<T>,
    requests: Map<Id, RemoteRequest<S>>,
    waiting_after: Option<T>,
    requests_after: Map<Id, RemoteRequest<S>>,
    action: ClientAction<S, T>,
)
    requires
        is_result_write(write, session_id, id, res),
        requests.contains_key(id),
        client_step(write.1, now, waiting, requests, waiting_after, requests_after, action),
    ensures
        action == (ClientAction::<S, T>::Respond {
            res_tx: requests[id].res_tx,
            response: RemoteResponse::Reply(res),
        }),
        !requests_after.contains_key(id),
{
}


/// Nodes are read as they were listed: the records that a client reads
/// from a list are the records that the server listed, without those that
/// the client leaves out.
pub proof fn nodes_are_read_as_listed(nodes: Seq<RemoteNode>, keep: spec_fn(proto::RemoteNode) -> bool)
    ensures
        listed_nodes(wire_nodes(nodes), keep) == nodes.filter(|n: RemoteNode| keep(wire_node(n))),
    decreases nodes.len(),
{
    let kept = |n: RemoteNode| keep(wire_node(n));
    let listed = wire_nodes(nodes);
    if nodes.len() == 0 {
        assert(listed =~= Seq::<proto::RemoteNode>::empty());
        assert(listed.filter(keep) =~= Seq::<proto::RemoteNode>::empty());
        assert(nodes.filter(kept) =~= Seq::<RemoteNode>::empty());
        assert(listed_nodes(listed, keep) =~= nodes.filter(kept));
    } else {
        let front = nodes.drop_last();
        let last = nodes.last();
        nodes_are_read_as_listed(front, keep);
        assert(nodes == front.push(last));
        assert(listed =~= wire_nodes(front).push(wire_node(last)));
        Seq::lemma_filter_push(front, last, kept);
        Seq::lemma_filter_push(wire_nodes(front), wire_node(last), keep);
        assert(node_of(wire_node(last)) == last);
        if keep(wire_node(last)) {
            assert(listed_nodes(listed, keep) =~= listed_nodes(wire_nodes(front), keep).push(last));
        }
        assert(listed_nodes(listed, keep) =~= nodes.filter(kept));
    }
}

/// What a server lists in its identity is what the client reads as the
/// peers of the server.
pub proof fn peers_are_read_as_listed(nodes: Seq<RemoteNode>)
    ensures
        listed_nodes(wire_nodes(nodes), any_node()) == nodes,
    decreases nodes.len(),
{
    nodes_are_read_as_listed(nodes, any_node());
    lemma_filter_keeps_all(nodes, |n: RemoteNode| any_node()(wire_node(n)));
}

/// A filter that lets everything through changes nothing.
proof fn lemma_filter_keeps_all<A>(list: Seq<A>, keep: spec_fn(A) -> bool)
    requires
        forall|i: int| 0 <= i < list.len() ==> keep(#[trigger] list[i]),
    ensures
        list.filter(keep) == list,
    decreases list.len(),
{
    if list.len() == 0 {
        assert(list.filter(keep) =~= list);
    } else {
        let front = list.drop_last();
        assert forall|i: int| 0 <= i < front.len() implies keep(#[trigger] front[i]) by {
            assert(front[i] == list[i]);
        }
        lemma_filter_keeps_all(front, keep);
        assert(keep(list[list.len() - 1]));
        assert(list == list.drop_last().push(list.last()));
        Seq::lemma_filter_push(list.drop_last(), list.last(), keep);
    }
}

} // verus!
