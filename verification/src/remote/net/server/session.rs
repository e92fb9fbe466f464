//! One inbound connection: the session that serves it.
//!
//! A session begins by sending the node's identity. It then receives the
//! events of the connecting node one by one. Each event is answered by an
//! action for the runtime to perform; the reply to an earlier request of
//! this node is matched with the caller that waits for it.
use crate::actor::{Actor, ActorId, ActorRefErr};
use crate::ident::{format_uuid, parse_uuid, uuid_parse, uuid_text, Id};
use crate::remote::cluster::node::{node_views, RemoteNode, RemoteNodeView};
use crate::remote::cluster::registry::{same_nodes_change_nothing, Membership, RemoteRegistry};
use crate::remote::handler::{popped, without, RemoteRequest};
use crate::remote::heartbeat::NodeTerminated;
use crate::remote::net::codec::{frame_of, NetworkCodec};
use crate::remote::net::message::{ClientEvent, SessionEvent};
use crate::remote::net::proto;
use crate::remote::net::proto::{
    ActorAddress, ClientHandshake, ClientResult, CreateActorEvent, MessageRequest, NodeIdentity,
    PongEvent, SessionHandshake, StreamPublishEvent,
};
use crate::remote::net::server::RemoteServerConfig;
use crate::remote::system::RemoteActorSystem;
use crate::remote::RemoteResponse;
use crate::NodeId;
use vstd::prelude::*;
use vstd::string::{StrSliceExecFns, StringExecFns};

verus! {

/// The far end of a connection: the address it comes from, as text, and
/// the port.
#[derive(Debug)]
pub struct PeerAddr {
    pub ip: String,
    pub port: u16,
}

impl Clone for PeerAddr {
    fn clone(&self) -> (addr: PeerAddr)
        ensures
            addr == *self,
    {
        PeerAddr { ip: self.ip.clone(), port: self.port }
    }
}

/// Why a session could not send.
#[derive(Debug)]
pub enum RemoteSessionErr {
    /// The event has no encoding.
    Encoding,
    /// The stream failed; the text says how.
    StreamErr(String),
}

/// Asks a session to send an event to its client.
pub struct SessionWrite(pub Id, pub ClientEvent);

/// Tells the session store that a session has ended.
#[derive(Clone, Copy, Debug, PartialEq, Eq, Structural)]
pub struct SessionClosed(pub Id);

/// The session of one inbound connection.
pub struct RemoteSession {
    id: Id,
    addr: PeerAddr,
    codec: NetworkCodec,
    reading: bool,
    remote_server_config: RemoteServerConfig,
}

impl Actor for RemoteSession {
    open spec fn type_tag() -> Seq<char> {
        "RemoteSession"@
    }

    fn actor_type() -> (name: String) {
        String::from_str("RemoteSession")
    }
}

/// What a session does when it starts: the identity to send first, and the
/// receiver that reads the client's events from then on.
pub struct SessionStart {
    pub identity: ClientEvent,
    pub receiver: SessionMessageReceiver,
}

/// The node as it is listed for a peer.
pub open spec fn wire_node(node: RemoteNode) -> proto::RemoteNode {
    proto::RemoteNode {
        node_id: node.id,
        addr: node.addr,
        tag: node.tag,
        node_started_at: node.node_started_at,
    }
}

/// The nodes as they are listed for a peer, in the same order.
pub open spec fn wire_nodes(nodes: Seq<RemoteNode>) -> Seq<proto::RemoteNode> {
    nodes.map_values(|n: RemoteNode| wire_node(n))
}

/// Lists nodes for a peer.
pub fn to_wire_nodes(nodes: &Vec<RemoteNode>) -> (listed: Vec<proto::RemoteNode>)
    ensures
        listed@ == wire_nodes(nodes@),
{
    let mut listed: Vec<proto::RemoteNode> = Vec::new();
    let mut i: usize = 0;
    while i < nodes.len()
        invariant
            i <= nodes.len(),
            listed@ == wire_nodes(nodes@.take(i as int)),
        decreases nodes.len() - i,
    {
        let node = &nodes[i];
        listed.push(
            proto::RemoteNode {
                node_id: node.id,
                addr: node.addr.clone(),
                tag: node.tag.clone(),
                node_started_at: node.node_started_at,
            },
        );
        proof {
            assert(nodes@.take(i as int + 1) == nodes@.take(i as int).push(nodes@[i as int]));
            assert(listed@ =~= wire_nodes(nodes@.take(i as int + 1)));
        }
        i += 1;
    }
    proof {
        assert(nodes@.take(i as int) == nodes@);
    }
    listed
}

/// The text that tells a peer the version of the package and of the
/// protocol.
pub open spec fn version_text(pkg_version: Seq<char>) -> Seq<char> {
    "pkg_version="@ + pkg_version + ",protocol_version=1"@
}

impl RemoteSession {
    /// The identifier of the session.
    pub closed spec fn id(&self) -> Id {
        self.id
    }

    /// The far end of the connection.
    pub closed spec fn addr(&self) -> PeerAddr {
        self.addr
    }

    /// Whether the reading half of the connection is still with the session.
    pub closed spec fn holds_reader(&self) -> bool {
        self.reading
    }

    /// How the node listens and how it lets itself be found.
    pub closed spec fn config(&self) -> RemoteServerConfig {
        self.remote_server_config
    }

    /// The codec of the connection.
    pub closed spec fn codec(&self) -> NetworkCodec {
        self.codec
    }

    /// The session of a connection that was just accepted.
    pub fn new(
        id: Id,
        addr: PeerAddr,
        codec: NetworkCodec,
        remote_server_config: RemoteServerConfig,
    ) -> (session: RemoteSession)
        ensures
            session.id() == id,
            session.addr() == addr,
            session.codec() == codec,
            session.config() == remote_server_config,
            session.holds_reader(),
    {
        RemoteSession { id, addr, codec, reading: true, remote_server_config }
    }

    /// Starts the session: the identity of this node, with the peers it
    /// knows and what it offers, is the first event to send; reading passes
    /// to a receiver for the events of the client.
    pub fn started<S>(
        &mut self,
        system: &RemoteActorSystem<S>,
        nodes: &Vec<RemoteNode>,
        pkg_version: &str,
    ) -> (start: SessionStart)
        requires
            old(self).holds_reader(),
        ensures
            !final(self).holds_reader(),
            final(self).id() == old(self).id(),
            final(self).addr() == old(self).addr(),
            final(self).codec() == old(self).codec(),
            final(self).config() == old(self).config(),
            start.identity matches ClientEvent::Identity(identity) && {
                &&& identity.node_id == system.id()
                &&& identity.node_tag@ == system.tag()
                &&& identity.application_version@ == version_text(pkg_version@)
                &&& identity.addr == old(self).config().external_node_addr
                &&& identity.node_started_at == Some(system.start())
                &&& identity.peers@ == wire_nodes(nodes@)
                &&& identity.capabilities matches Some(c) && c.actors@
                    == system.spec_config().actor_types@ && c.messages@
                    == system.spec_config().handler_types@
            },
            start.receiver.session_id() == old(self).id(),
            start.receiver.addr() == old(self).addr(),
            start.receiver.config() == old(self).config(),
            start.receiver.node().is_none(),
            start.receiver.spec_state() == SessionState::Identified,
    {
        let peers = to_wire_nodes(nodes);
        let capabilities = system.config().get_capabilities();
        let capabilities = Some(
            proto::SystemCapabilities {
                actors: capabilities.actors,
                messages: capabilities.messages,
            },
        );
        let mut application_version = String::from_str("pkg_version=");
        application_version.append(pkg_version);
        application_version.append(",protocol_version=1");
        let identity = ClientEvent::Identity(
            NodeIdentity {
                node_id: system.node_id(),
                node_tag: String::from_str(system.node_tag()),
                application_version,
                addr: self.remote_server_config.external_node_addr.clone(),
                node_started_at: Some(*system.started_at()),
                peers,
                capabilities,
            },
        );
        self.reading = false;
        let receiver = SessionMessageReceiver::new(
            self.id,
            self.addr.clone(),
            self.remote_server_config.clone(),
        );
        SessionStart { identity, receiver }
    }

    /// Ends the session: its store, where it has one, is to be told.
    pub fn stopped(&self, stored: bool) -> (closed: Option<SessionClosed>)
        ensures
            closed == if stored {
                Some(SessionClosed(self.id()))
            } else {
                None
            },
    {
        if stored {
            Some(SessionClosed(self.id))
        } else {
            None
        }
    }

    /// Frames an encoded event for the stream. An event that could not be
    /// encoded, or whose encoding is too long for a frame, is not sent.
    pub fn write(&self, encoded: Option<Vec<u8>>) -> (frame: Result<Vec<u8>, RemoteSessionErr>)
        ensures
            match encoded {
                Some(payload) => if payload@.len() <= self.codec().max_frame_len {
                    frame matches Ok(bytes) && bytes@ == frame_of(payload@)
                } else {
                    frame matches Err(RemoteSessionErr::Encoding)
                },
                None => frame matches Err(RemoteSessionErr::Encoding),
            },
    {
        match encoded {
            Some(payload) => {
                let mut frame: Vec<u8> = Vec::new();
                match self.codec.encode(&payload, &mut frame) {
                    Ok(()) => {
                        assert(frame@ =~= frame_of(payload@));
                        Ok(frame)
                    },
                    Err(_) => Err(RemoteSessionErr::Encoding),
                }
            },
            None => Err(RemoteSessionErr::Encoding),
        }
    }

    /// Handles a request to send an event: the event is for this session
    /// to encode and write.
    pub fn handle_session_write(&self, message: SessionWrite) -> (event: ClientEvent)
        ensures
            event == message.1,
    {
        message.1
    }
}

/// Why an event was dropped.
#[derive(Clone, Copy, Debug, PartialEq, Eq, Structural)]
pub enum Discarded {
    /// No request waits under the identifier: the reply came twice, or too
    /// late, or was never asked for.
    UnknownRequest,
    /// The identifier of the event is not a UUID.
    MalformedMessageId,
}

/// What the runtime is to do after an event of a client.
pub enum SessionAction<S> {
    /// Nothing follows from the event.
    Nothing,
    /// Run the handshake with what the client sent.
    Handshake(SessionHandshake),
    /// Find the node of an actor and answer under `message_id`.
    FindActor { message_id: Id, actor_id: ActorId },
    /// Note that an actor lives on a node.
    RegisterActor { actor_id: ActorId, node_id: NodeId },
    /// Hand a message to the handler that it names.
    HandleMessage(MessageRequest),
    /// Create an actor.
    CreateActor(CreateActorEvent),
    /// Publish on a distributed stream.
    StreamPublish(StreamPublishEvent),
    /// This system has shut down: stop the session.
    StopSession,
    /// The client says that its node is shutting down: tell the heartbeat.
    NodeTerminated(NodeTerminated),
    /// Send an event to the client.
    Write(SessionWrite),
    /// Complete the request that waited for this reply.
    Respond { res_tx: S, response: RemoteResponse },
    /// Drop the event.
    Discard(Discarded),
}

/// Where a session stands.
#[derive(Clone, Copy, Debug, PartialEq, Eq, Structural)]
pub enum SessionState {
    /// The connection was accepted; nothing was sent yet.
    Accepted,
    /// The identity of this node was sent.
    Identified,
    /// The handshake of the client has come and is being answered.
    Handshaken,
    /// The handshake is complete.
    Live,
    /// The session is over; nothing more is read.
    Closed,
}

/// Reads the events of one client.
pub struct SessionMessageReceiver {
    session_id: Id,
    node_id: Option<NodeId>,
    addr: PeerAddr,
    state: SessionState,
    server_config: RemoteServerConfig,
}

/// What completing a request under `id` with `response` comes to: the
/// caller that waited is answered and waits no longer; a reply that nobody
/// waits for, or whose identifier is none, is dropped.
pub open spec fn completion<S>(
    requests: Map<Id, RemoteRequest<S>>,
    id: Option<Id>,
    response: RemoteResponse,
) -> (Map<Id, RemoteRequest<S>>, SessionAction<S>) {
    match id {
        Some(id) => match popped(requests, id) {
            Some(request) => (
                without(requests, id),
                SessionAction::Respond { res_tx: request.res_tx, response },
            ),
            None => (without(requests, id), SessionAction::Discard(Discarded::UnknownRequest)),
        },
        None => (requests, SessionAction::Discard(Discarded::MalformedMessageId)),
    }
}

/// What the question for an actor's node comes to.
pub open spec fn lookup<S>(id: Option<Id>, actor_id: ActorId) -> SessionAction<S> {
    match id {
        Some(message_id) => SessionAction::FindActor { message_id, actor_id },
        None => SessionAction::Discard(Discarded::MalformedMessageId),
    }
}

/// What an event of a client comes to: where the session stands
/// afterwards, which requests still wait, and what the runtime is to do.
pub open spec fn session_step<S>(
    session_id: Id,
    state: SessionState,
    requests: Map<Id, RemoteRequest<S>>,
    system_terminated: bool,
    msg: SessionEvent,
) -> (SessionState, Map<Id, RemoteRequest<S>>, SessionAction<S>) {
    match msg {
        SessionEvent::Identify(_) => (state, requests, SessionAction::Nothing),
        SessionEvent::Handshake(handshake) => (
            if state == SessionState::Closed {
                state
            } else {
                SessionState::Handshaken
            },
            requests,
            SessionAction::Handshake(handshake),
        ),
        SessionEvent::FindActor(find) => (
            state,
            requests,
            lookup(uuid_parse(find.message_id@), find.actor_id),
        ),
        SessionEvent::RegisterActor(actor) => (
            state,
            requests,
            match actor.node_id {
                Some(node_id) => SessionAction::RegisterActor { actor_id: actor.actor_id, node_id },
                None => SessionAction::Nothing,
            },
        ),
        SessionEvent::NotifyActor(request) => (
            state,
            requests,
            SessionAction::HandleMessage(request),
        ),
        SessionEvent::Ping(ping) => if system_terminated {
            (SessionState::Closed, requests, SessionAction::StopSession)
        } else if ping.system_terminated {
            (
                SessionState::Closed,
                requests,
                SessionAction::NodeTerminated(NodeTerminated(ping.node_id)),
            )
        } else {
            (
                state,
                requests,
                SessionAction::Write(
                    SessionWrite(
                        session_id,
                        ClientEvent::Pong(PongEvent { message_id: ping.message_id }),
                    ),
                ),
            )
        },
        SessionEvent::Pong(_) => (state, requests, SessionAction::Nothing),
        SessionEvent::CreateActor(create) => (state, requests, SessionAction::CreateActor(create)),
        SessionEvent::StreamPublish(publish) => (
            state,
            requests,
            SessionAction::StreamPublish(publish),
        ),
        SessionEvent::Raft => (state, requests, SessionAction::Nothing),
        SessionEvent::Result(result) => {
            let (left, action) = completion(
                requests,
                uuid_parse(result.message_id@),
                RemoteResponse::Reply(result.result),
            );
            (state, left, action)
        },
        SessionEvent::Error(failure) => {
            let (left, action) = completion(
                requests,
                uuid_parse(failure.message_id@),
                RemoteResponse::Error(failure.error),
            );
            (state, left, action)
        },
    }
}

/// Completes the request that waits under `id`, if any does.
pub fn complete_request<S>(
    sys: &mut RemoteActorSystem<S>,
    id: Option<Id>,
    response: RemoteResponse,
) -> (action: SessionAction<S>)
    ensures
        (final(sys).requests(), action) == completion(old(sys).requests(), id, response),
        final(sys).same_node(old(sys)),
{
    match id {
        Some(id) => match sys.pop_request(id) {
            Some(res_tx) => SessionAction::Respond { res_tx, response },
            None => SessionAction::Discard(Discarded::UnknownRequest),
        },
        None => SessionAction::Discard(Discarded::MalformedMessageId),
    }
}

/// Turns a question for an actor's node into the action that answers it.
pub fn find_actor<S>(id: Option<Id>, actor_id: ActorId) -> (action: SessionAction<S>)
    ensures
        action == lookup::<S>(id, actor_id),
{
    match id {
        Some(message_id) => SessionAction::FindActor { message_id, actor_id },
        None => SessionAction::Discard(Discarded::MalformedMessageId),
    }
}

impl SessionMessageReceiver {
    /// The session that the receiver reads for.
    pub closed spec fn session_id(&self) -> Id {
        self.session_id
    }

    /// The node at the far end, once it is known.
    pub closed spec fn node(&self) -> Option<NodeId> {
        self.node_id
    }

    /// The far end of the connection.
    pub closed spec fn addr(&self) -> PeerAddr {
        self.addr
    }

    /// Where the session stands.
    pub closed spec fn spec_state(&self) -> SessionState {
        self.state
    }

    /// Whether reading is to end.
    pub open spec fn closing(&self) -> bool {
        self.spec_state() == SessionState::Closed
    }

    /// How the node listens and how it lets itself be found.
    pub closed spec fn config(&self) -> RemoteServerConfig {
        self.server_config
    }

    /// Whether `other` is this receiver but, at most, for where the
    /// session stands.
    pub open spec fn same_session(&self, other: &SessionMessageReceiver) -> bool {
        &&& self.session_id() == other.session_id()
        &&& self.node() == other.node()
        &&& self.addr() == other.addr()
        &&& self.config() == other.config()
    }

    /// The receiver of a session that has sent its identity.
    pub fn new(session_id: Id, addr: PeerAddr, server_config: RemoteServerConfig) -> (receiver:
        SessionMessageReceiver)
        ensures
            receiver.session_id() == session_id,
            receiver.addr() == addr,
            receiver.config() == server_config,
            receiver.node().is_none(),
            receiver.spec_state() == SessionState::Identified,
    {
        SessionMessageReceiver {
            session_id,
            addr,
            server_config,
            node_id: None,
            state: SessionState::Identified,
        }
    }

    /// Where the session stands.
    pub fn state(&self) -> (state: SessionState)
        ensures
            state == self.spec_state(),
    {
        self.state
    }

    /// Takes one event of the client and says what is to be done.
    pub fn on_receive<S>(&mut self, msg: SessionEvent, sys: &mut RemoteActorSystem<S>) -> (action:
        SessionAction<S>)
        ensures
            (final(self).spec_state(), final(sys).requests(), action) == session_step(
                old(self).session_id(),
                old(self).spec_state(),
                old(sys).requests(),
                old(sys).spec_actor_system().terminated(),
                msg,
            ),
            final(self).same_session(old(self)),
            final(sys).same_node(old(sys)),
    {
        match msg {
            SessionEvent::Identify(_) => SessionAction::Nothing,
            SessionEvent::Handshake(handshake) => {
                if self.state != SessionState::Closed {
                    self.state = SessionState::Handshaken;
                }
                SessionAction::Handshake(handshake)
            },
            SessionEvent::FindActor(find) => {
                let id = parse_uuid(find.message_id.as_str());
                find_actor(id, find.actor_id)
            },
            SessionEvent::RegisterActor(actor) => match actor.node_id {
                Some(node_id) => SessionAction::RegisterActor { actor_id: actor.actor_id, node_id },
                None => SessionAction::Nothing,
            },
            SessionEvent::NotifyActor(request) => SessionAction::HandleMessage(request),
            SessionEvent::Ping(ping) => {
                if sys.actor_system().is_terminated() {
                    self.close();
                    SessionAction::StopSession
                } else if ping.system_terminated {
                    self.close();
                    SessionAction::NodeTerminated(NodeTerminated(ping.node_id))
                } else {
                    SessionAction::Write(
                        SessionWrite(
                            self.session_id,
                            ClientEvent::Pong(PongEvent { message_id: ping.message_id }),
                        ),
                    )
                }
            },
            SessionEvent::Pong(_) => SessionAction::Nothing,
            SessionEvent::CreateActor(create) => SessionAction::CreateActor(create),
            SessionEvent::StreamPublish(publish) => SessionAction::StreamPublish(publish),
            SessionEvent::Raft => SessionAction::Nothing,
            SessionEvent::Result(result) => {
                let id = parse_uuid(result.message_id.as_str());
                complete_request(sys, id, RemoteResponse::Reply(result.result))
            },
            SessionEvent::Error(failure) => {
                let id = parse_uuid(failure.message_id.as_str());
                complete_request(sys, id, RemoteResponse::Error(failure.error))
            },
        }
    }

    /// Notes that the reply to the handshake was sent: a session that was
    /// answering a handshake is live.
    pub fn on_handshake_sent(&mut self)
        ensures
            final(self).spec_state() == if old(self).spec_state() == SessionState::Handshaken {
                SessionState::Live
            } else {
                old(self).spec_state()
            },
            final(self).same_session(old(self)),
    {
        if self.state == SessionState::Handshaken {
            self.state = SessionState::Live;
        }
    }

    /// The stream has ended: the session is to stop.
    pub fn on_close<S>(&self) -> (action: SessionAction<S>)
        ensures
            action == SessionAction::<S>::StopSession,
    {
        SessionAction::StopSession
    }

    /// Ends reading.
    pub fn close(&mut self)
        ensures
            final(self).spec_state() == SessionState::Closed,
            final(self).same_session(old(self)),
    {
        self.state = SessionState::Closed;
    }

    pub fn should_close(&self) -> (closing: bool)
        ensures
            closing == self.closing(),
    {
        self.state == SessionState::Closed
    }
}

/// A session that is closed stays closed, whatever comes.
pub proof fn closed_session_stays_closed<S>(
    session_id: Id,
    requests: Map<Id, RemoteRequest<S>>,
    system_terminated: bool,
    msg: SessionEvent,
)
    ensures
        session_step(session_id, SessionState::Closed, requests, system_terminated, msg).0
            == SessionState::Closed,
{
}

/// What follows once an outcome is known.
pub enum FollowUp {
    /// Nothing is sent.
    Nothing,
    /// Send an event to the client.
    Write(SessionWrite),
    /// Tell the node that sent the request that it failed.
    NotifyError { message_id: Id, error: ActorRefErr, node_id: NodeId },
    /// The identifier of the request is not a UUID: nobody can be answered.
    Discard(Discarded),
}

/// Whether `write` sends, through the session `session_id`, the result
/// `res` of the request `msg_id`.
pub open spec fn is_result_write(write: SessionWrite, session_id: Id, msg_id: Id, res: Vec<u8>) -> bool {
    &&& write.0 == session_id
    &&& write.1 matches ClientEvent::Result(result) && result.message_id@ == uuid_text(msg_id)
        && uuid_parse(result.message_id@) == Some(msg_id) && result.result == res
}

/// The event that carries the result of a request back to its sender.
pub fn send_result(msg_id: Id, res: Vec<u8>, session_id: Id) -> (write: SessionWrite)
    ensures
        is_result_write(write, session_id, msg_id, res),
{
    SessionWrite(
        session_id,
        ClientEvent::Result(ClientResult { message_id: format_uuid(msg_id), result: res }),
    )
}

/// Whether `follow_up` is what the outcome of a message comes to, `id`
/// being what the identifier of the request reads as.
///
/// An answer is sent back where the sender asked for one. A failure is
/// reported to the node that the request came from. Where either needs the
/// identifier and it is not a UUID, the outcome is dropped.
pub open spec fn follows_message(
    follow_up: FollowUp,
    msg: MessageRequest,
    outcome: Result<Vec<u8>, ActorRefErr>,
    id: Option<Id>,
    session_id: Id,
) -> bool {
    match outcome {
        Ok(buf) => if msg.requires_response {
            match id {
                Some(id) => follow_up matches FollowUp::Write(write) && is_result_write(
                    write,
                    session_id,
                    id,
                    buf,
                ),
                None => follow_up matches FollowUp::Discard(Discarded::MalformedMessageId),
            }
        } else {
            follow_up is Nothing
        },
        Err(e) => match id {
            Some(id) => follow_up matches FollowUp::NotifyError { message_id, error, node_id }
                && message_id == id && error == e && node_id == msg.origin_node_id,
            None => follow_up matches FollowUp::Discard(Discarded::MalformedMessageId),
        },
    }
}

/// Decides what follows the outcome of a message, given what the
/// identifier of the request reads as.
pub fn message_follow_up(
    msg: &MessageRequest,
    outcome: Result<Vec<u8>, ActorRefErr>,
    id: Option<Id>,
    session_id: Id,
) -> (follow_up: FollowUp)
    ensures
        follows_message(follow_up, *msg, outcome, id, session_id),
{
    match outcome {
        Ok(buf) => {
            if msg.requires_response {
                match id {
                    Some(id) => FollowUp::Write(send_result(id, buf, session_id)),
                    None => FollowUp::Discard(Discarded::MalformedMessageId),
                }
            } else {
                FollowUp::Nothing
            }
        },
        Err(e) => match id {
            Some(id) => FollowUp::NotifyError {
                message_id: id,
                error: e,
                node_id: msg.origin_node_id,
            },
            None => FollowUp::Discard(Discarded::MalformedMessageId),
        },
    }
}

/// Decides what follows once the handler named by a message has run, or
/// could not be run: `outcome` is the encoded answer or the failure.
pub fn session_handle_message(
    msg: &MessageRequest,
    outcome: Result<Vec<u8>, ActorRefErr>,
    session_id: Id,
) -> (follow_up: FollowUp)
    ensures
        follows_message(follow_up, *msg, outcome, uuid_parse(msg.message_id@), session_id),
{
    let id = parse_uuid(msg.message_id.as_str());
    message_follow_up(msg, outcome, id, session_id)
}

/// The answer to the question where an actor lives.
pub fn session_handle_lookup(id: ActorId, node_id: Option<NodeId>) -> (response: ActorAddress)
    ensures
        response == (ActorAddress { actor_id: id, node_id }),
{
    ActorAddress { actor_id: id, node_id }
}

/// What follows once an answer has been encoded, or could not be: an
/// answer that has no encoding is not sent.
pub fn encoded_follow_up(msg_id: Id, encoded: Option<Vec<u8>>, session_id: Id) -> (follow_up:
    FollowUp)
    ensures
        match encoded {
            Some(buf) => follow_up matches FollowUp::Write(write) && is_result_write(
                write,
                session_id,
                msg_id,
                buf,
            ),
            None => follow_up is Nothing,
        },
{
    match encoded {
        Some(buf) => FollowUp::Write(send_result(msg_id, buf, session_id)),
        None => FollowUp::Nothing,
    }
}

/// What a request to create an actor asks for.
pub struct CreateActor {
    /// The identifier that the actor is to have; none lets the node choose.
    pub actor_id: Option<ActorId>,
    pub actor_type: String,
    pub recipe: Vec<u8>,
}

/// Reads a request to create an actor: an empty identifier asks for none
/// in particular. The identifier of the request is handed back with it.
pub fn session_create_actor(msg: CreateActorEvent) -> (request: (String, CreateActor))
    ensures
        request.0 == msg.message_id,
        request.1.actor_id == if msg.actor_id@.len() == 0 {
            None
        } else {
            Some(msg.actor_id)
        },
        request.1.actor_type == msg.actor_type,
        request.1.recipe == msg.recipe,
{
    let actor_id = if msg.actor_id.as_str().unicode_len() == 0 {
        None
    } else {
        Some(msg.actor_id)
    };
    (msg.message_id, CreateActor { actor_id, actor_type: msg.actor_type, recipe: msg.recipe })
}

/// Whether `follow_up` is what the creation of an actor comes to: the
/// encoded address of the new actor goes back to the client; a failure is
/// not answered.
pub open spec fn follows_creation(
    follow_up: FollowUp,
    outcome: Result<Vec<u8>, ActorRefErr>,
    id: Option<Id>,
    session_id: Id,
) -> bool {
    match outcome {
        Ok(buf) => match id {
            Some(id) => follow_up matches FollowUp::Write(write) && is_result_write(
                write,
                session_id,
                id,
                buf,
            ),
            None => follow_up matches FollowUp::Discard(Discarded::MalformedMessageId),
        },
        Err(_) => follow_up is Nothing,
    }
}

/// Decides what follows the creation of an actor, given what the
/// identifier of the request reads as.
pub fn creation_follow_up(
    outcome: Result<Vec<u8>, ActorRefErr>,
    id: Option<Id>,
    session_id: Id,
) -> (follow_up: FollowUp)
    ensures
        follows_creation(follow_up, outcome, id, session_id),
{
    match outcome {
        Ok(buf) => match id {
            Some(id) => FollowUp::Write(send_result(id, buf, session_id)),
            None => FollowUp::Discard(Discarded::MalformedMessageId),
        },
        Err(_) => FollowUp::Nothing,
    }
}

/// Decides what follows the creation of an actor for the request
/// `message_id`.
pub fn session_actor_created(
    message_id: &str,
    outcome: Result<Vec<u8>, ActorRefErr>,
    session_id: Id,
) -> (follow_up: FollowUp)
    ensures
        follows_creation(follow_up, outcome, uuid_parse(message_id@), session_id),
{
    let id = parse_uuid(message_id);
    creation_follow_up(outcome, id, session_id)
}

/// A message for the stream mediator to publish.
pub struct PublishRaw(pub StreamPublishEvent);

/// Hands a published message to the mediator, where the node has one.
pub fn session_stream_publish(msg: StreamPublishEvent, has_mediator: bool) -> (publish: Option<
    PublishRaw,
>)
    ensures
        publish == if has_mediator {
            Some(PublishRaw(msg))
        } else {
            None
        },
{
    if has_mediator {
        Some(PublishRaw(msg))
    } else {
        None
    }
}

/// What stands behind the last colon of `addr`; all of it where it has
/// none.
pub open spec fn after_last_colon(addr: Seq<char>) -> Seq<char>
    decreases addr.len(),
{
    if addr.len() == 0 {
        addr
    } else if addr.last() == ':' {
        Seq::empty()
    } else {
        after_last_colon(addr.drop_last()).push(addr.last())
    }
}

/// The address of a node as the connection shows it: the host that the
/// connection comes from, with the port that the node announced.
pub open spec fn observed_addr(host: Seq<char>, announced: Seq<char>) -> Seq<char> {
    host + seq![':'] + after_last_colon(announced)
}

/// The tail of an address from `start` on is what stands behind its last
/// colon, where the tail has no colon and begins right behind one or at
/// the very start.
proof fn lemma_after_last_colon(addr: Seq<char>, start: int)
    requires
        0 <= start <= addr.len(),
        forall|j: int| start <= j < addr.len() ==> addr[j] != ':',
        start == 0 || addr[start - 1] == ':',
    ensures
        after_last_colon(addr) == addr.subrange(start, addr.len() as int),
    decreases addr.len(),
{
    if addr.len() == 0 {
        assert(addr.subrange(start, addr.len() as int) =~= addr);
    } else if start == addr.len() {
        assert(addr.subrange(start, addr.len() as int) =~= Seq::<char>::empty());
    } else {
        let front = addr.drop_last();
        assert(addr.last() != ':');
        lemma_after_last_colon(front, start);
        assert(front.subrange(start, front.len() as int).push(addr.last()) =~= addr.subrange(
            start,
            addr.len() as int,
        ));
    }
}

/// The port that an address announces: what stands behind its last colon.
pub fn port_of(addr: &str) -> (port: String)
    ensures
        port@ == after_last_colon(addr@),
{
    let n = addr.unicode_len();
    let mut start: usize = n;
    let mut found = false;
    while start > 0 && !found
        invariant
            start <= n,
            n == addr@.len(),
            forall|j: int| start <= j < n ==> addr@[j] != ':',
            found ==> start > 0 && addr@[start - 1] == ':',
        decreases start + (if found { 0int } else { 1int }),
    {
        if addr.get_char(start - 1) == ':' {
            found = true;
        } else {
            start -= 1;
        }
    }
    proof {
        lemma_after_last_colon(addr@, start as int);
    }
    String::from_str(addr.substring_char(start, n))
}

/// A peer that a client has named, as this node takes it: where addresses
/// of incoming nodes are overridden and the peer is the client itself, with
/// the address that the connection shows; else as it was named.
pub open spec fn seed_of(from: NodeId, host: Seq<char>, overriding: bool) -> spec_fn(
    proto::RemoteNode,
) -> RemoteNodeView {
    |n: proto::RemoteNode|
        RemoteNodeView {
            id: n.node_id,
            addr: if overriding && n.node_id == from {
                observed_addr(host, n.addr@)
            } else {
                n.addr@
            },
            tag: n.tag@,
            node_started_at: n.node_started_at,
        }
}

/// The peers other than the node `self_id`.
pub open spec fn not_node(self_id: NodeId) -> spec_fn(proto::RemoteNode) -> bool {
    |n: proto::RemoteNode| n.node_id != self_id
}

/// The nodes that a handshake gives to discovery: the peers that the client
/// knows, but for this node itself.
pub open spec fn handshake_seeds(
    self_id: NodeId,
    handshake: SessionHandshake,
    host: Seq<char>,
    overriding: bool,
) -> Seq<RemoteNodeView> {
    seeds_of(self_id, handshake.node_id, handshake.nodes@, host, overriding)
}

/// The nodes that a list of peers, named by the node `from`, gives to
/// discovery on the node `self_id`.
pub open spec fn seeds_of(
    self_id: NodeId,
    from: NodeId,
    listed: Seq<proto::RemoteNode>,
    host: Seq<char>,
    overriding: bool,
) -> Seq<RemoteNodeView> {
    listed.filter(not_node(self_id)).map_values(seed_of(from, host, overriding))
}

/// What the server does with a handshake: the nodes to discover first, and
/// the reply to send once discovery is through.
pub struct HandshakePlan {
    pub discover: Vec<RemoteNode>,
    pub reply: SessionWrite,
}

/// Whether `reply` is the handshake reply of the node `ctx` that lists
/// `nodes`, sent through the session `session_id`.
pub open spec fn is_handshake_reply<S>(
    reply: SessionWrite,
    ctx: RemoteActorSystem<S>,
    nodes: Seq<RemoteNode>,
    session_id: Id,
) -> bool {
    &&& reply.0 == session_id
    &&& reply.1 matches ClientEvent::Handshake(response) && {
        &&& response.node_id == ctx.id()
        &&& response.node_tag@ == ctx.tag()
        &&& response.node_started_at == Some(ctx.start())
        &&& response.nodes@ == wire_nodes(nodes)
    }
}

/// The reply that completes a handshake: this node's identity and the
/// members that it knows.
pub fn handshake_reply<S>(ctx: &RemoteActorSystem<S>, nodes: &Vec<RemoteNode>, session_id: Id) -> (reply:
    SessionWrite)
    ensures
        is_handshake_reply(reply, *ctx, nodes@, session_id),
{
    let response = ClientHandshake {
        node_id: ctx.node_id(),
        node_tag: String::from_str(ctx.node_tag()),
        node_started_at: Some(*ctx.started_at()),
        nodes: to_wire_nodes(nodes),
    };
    SessionWrite(session_id, ClientEvent::Handshake(response))
}

/// The nodes that a handshake gives to discovery.
pub fn handshake_discovery(
    self_id: NodeId,
    handshake: &SessionHandshake,
    session_addr: &PeerAddr,
    server_config: &RemoteServerConfig,
) -> (seeds: Vec<RemoteNode>)
    ensures
        node_views(seeds@) == handshake_seeds(
            self_id,
            *handshake,
            session_addr.ip@,
            server_config.override_incoming_node_addr,
        ),
{
    let overriding = server_config.override_incoming_node_addr;
    let ghost keep = not_node(self_id);
    let ghost seed = seed_of(handshake.node_id, session_addr.ip@, overriding);
    let ghost named = handshake.nodes@;
    let mut seeds: Vec<RemoteNode> = Vec::new();
    let mut i: usize = 0;
    proof {
        assert(named.take(0) =~= Seq::<proto::RemoteNode>::empty());
        assert(named.take(0).filter(keep) =~= Seq::<proto::RemoteNode>::empty());
        assert(node_views(seeds@) =~= named.take(0).filter(keep).map_values(seed));
    }
    while i < handshake.nodes.len()
        invariant
            i <= handshake.nodes.len(),
            named == handshake.nodes@,
            keep == not_node(self_id),
            seed == seed_of(handshake.node_id, session_addr.ip@, overriding),
            node_views(seeds@) == named.take(i as int).filter(keep).map_values(seed),
        decreases handshake.nodes.len() - i,
    {
        let n = &handshake.nodes[i];
        proof {
            let seen = named.take(i as int);
            assert(named.take(i as int + 1) == seen.push(*n));
            Seq::lemma_filter_push(seen, *n, keep);
            Seq::lemma_push_map_commute(seen.filter(keep), seed, *n);
        }
        if n.node_id != self_id {
            let addr = if overriding && n.node_id == handshake.node_id {
                let mut addr = session_addr.ip.clone();
                proof {
                    reveal_strlit(":");
                    assert(":"@ =~= seq![':']);
                }
                addr.append(":");
                let port = port_of(n.addr.as_str());
                addr.append(port.as_str());
                addr
            } else {
                n.addr.clone()
            };
            let ghost before = seeds@;
            let node = RemoteNode::new(n.node_id, addr, n.tag.clone(), n.node_started_at);
            seeds.push(node);
            proof {
                assert(node@ == seed(*n));
                assert(node_views(seeds@) =~= node_views(before).push(node@));
            }
        }
        i += 1;
    }
    proof {
        assert(named.take(i as int) == named);
    }
    seeds
}

/// Handles the handshake of a client. The peers that the client has named,
/// but for this node itself, ask to join the members of this node and are
/// handed back for discovery; the reply carries this node's identity and
/// the members as they stand after that.
pub fn session_handshake<S>(
    ctx: &RemoteActorSystem<S>,
    registry: &mut RemoteRegistry,
    handshake: &SessionHandshake,
    session_id: Id,
    session_addr: &PeerAddr,
    server_config: &RemoteServerConfig,
) -> (plan: HandshakePlan)
    requires
        old(registry)@.wf(),
    ensures
        node_views(plan.discover@) == handshake_seeds(
            ctx.id(),
            *handshake,
            session_addr.ip@,
            server_config.override_incoming_node_addr,
        ),
        final(registry)@ == old(registry)@.registered_all(plan.discover@),
        final(registry)@.wf(),
        final(registry).locations() == old(registry).locations(),
        is_handshake_reply(plan.reply, *ctx, final(registry)@.members, session_id),
{
    let discover = handshake_discovery(ctx.node_id(), handshake, session_addr, server_config);
    registry.register_all(&discover);
    let nodes = registry.get_nodes();
    let reply = handshake_reply(ctx, &nodes, session_id);
    HandshakePlan { discover, reply }
}

/// Whether two handshake replies say the same.
pub open spec fn same_reply(first: SessionWrite, second: SessionWrite) -> bool {
    &&& first.0 == second.0
    &&& first.1 matches ClientEvent::Handshake(a)
    &&& second.1 matches ClientEvent::Handshake(b)
    &&& a.node_id == b.node_id
    &&& a.node_tag@ == b.node_tag@
    &&& a.node_started_at == b.node_started_at
    &&& a.nodes@ == b.nodes@
}

/// A handshake that is replayed gets the same reply, and leaves the members
/// as they were.
///
/// `session_handshake` lets the peers that a handshake names join the
/// members and replies with the members as they stand then. `first` is the
/// reply to a handshake whose peers, written down as `first_seeds`, joined
/// the membership `m`. `second` is the reply to the same handshake sent
/// again: its peers, written down anew as `second_seeds`, say the same of
/// themselves and ask to join what the first round left. The second round
/// admits nobody, and the two replies agree in every field.
pub proof fn handshake_replay_gets_same_reply<S>(
    ctx: RemoteActorSystem<S>,
    m: Membership,
    first_seeds: Seq<RemoteNode>,
    second_seeds: Seq<RemoteNode>,
    session_id: Id,
    first: SessionWrite,
    second: SessionWrite,
)
    requires
        m.wf(),
        node_views(first_seeds) == node_views(second_seeds),
        is_handshake_reply(first, ctx, m.registered_all(first_seeds).members, session_id),
        is_handshake_reply(
            second,
            ctx,
            m.registered_all(first_seeds).registered_all(second_seeds).members,
            session_id,
        ),
    ensures
        same_reply(first, second),
        m.registered_all(first_seeds).registered_all(second_seeds) == m.registered_all(
            first_seeds,
        ),
{
    same_nodes_change_nothing(m, first_seeds, second_seeds);
}

/// The members other than the node `self_id`.
pub open spec fn not_member(self_id: NodeId) -> spec_fn(RemoteNode) -> bool {
    |n: RemoteNode| n.id != self_id
}

/// What a client lists in its handshake is what the server gives to
/// discovery: where addresses are taken as they are announced, the nodes to
/// discover are the members of the client, but for the server itself.
pub proof fn seeds_are_the_members_of_the_client(
    self_id: NodeId,
    from: NodeId,
    members: Seq<RemoteNode>,
    host: Seq<char>,
)
    ensures
        seeds_of(self_id, from, wire_nodes(members), host, false) == node_views(
            members.filter(not_member(self_id)),
        ),
    decreases members.len(),
{
    let listed = wire_nodes(members);
    let seed = seed_of(from, host, false);
    if members.len() == 0 {
        assert(listed =~= Seq::<proto::RemoteNode>::empty());
        assert(listed.filter(not_node(self_id)) =~= Seq::<proto::RemoteNode>::empty());
        assert(members.filter(not_member(self_id)) =~= Seq::<RemoteNode>::empty());
        assert(seeds_of(self_id, from, listed, host, false) =~= node_views(
            members.filter(not_member(self_id)),
        ));
    } else {
        let front = members.drop_last();
        let last = members.last();
        seeds_are_the_members_of_the_client(self_id, from, front, host);
        assert(members == front.push(last));
        assert(listed =~= wire_nodes(front).push(wire_node(last)));
        Seq::lemma_filter_push(front, last, not_member(self_id));
        Seq::lemma_filter_push(wire_nodes(front), wire_node(last), not_node(self_id));
        assert(seed(wire_node(last)) == last@);
        if last.id != self_id {
            assert(seeds_of(self_id, from, listed, host, false) =~= seeds_of(
                self_id,
                from,
                wire_nodes(front),
                host,
                false,
            ).push(last@));
            assert(node_views(members.filter(not_member(self_id))) =~= node_views(
                front.filter(not_member(self_id)),
            ).push(last@));
        }
    }
}

} // verus!
