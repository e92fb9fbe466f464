//! The records that travel in frames between nodes.
//!
//! Each record is the decoded form of one frame's payload. Encoding and
//! decoding are left to the transport; the session logic reads and builds
//! these values.
use crate::actor::ActorRefErr;
use crate::remote::cluster::node::Timestamp;
use vstd::prelude::*;

verus! {

/// A cluster member as it is listed in handshakes.
#[derive(Debug)]
pub struct RemoteNode {
    pub node_id: u64,
    pub addr: String,
    pub tag: String,
    pub node_started_at: Option<Timestamp>,
}

/// The actor types and message handlers a node offers.
#[derive(Debug)]
pub struct SystemCapabilities {
    pub actors: Vec<String>,
    pub messages: Vec<String>,
}

/// The first frame a server sends on a new connection.
#[derive(Debug)]
pub struct NodeIdentity {
    pub node_id: u64,
    pub node_tag: String,
    pub application_version: String,
    pub addr: String,
    pub node_started_at: Option<Timestamp>,
    pub peers: Vec<RemoteNode>,
    pub capabilities: Option<SystemCapabilities>,
}

/// Whether the connecting side takes part in the cluster or only uses it.
#[derive(Clone, Copy, Debug, PartialEq, Eq, Structural)]
pub enum ClientType {
    Worker,
    Client,
}

/// The client's answer to the server's identity.
#[derive(Debug)]
pub struct SessionHandshake {
    pub node_id: u64,
    pub node_tag: String,
    pub token: Vec<u8>,
    pub client_type: ClientType,
    pub trace_id: String,
    pub node_started_at: Option<Timestamp>,
    pub nodes: Vec<RemoteNode>,
}

/// The server's reply that completes the handshake.
#[derive(Debug)]
pub struct ClientHandshake {
    pub node_id: u64,
    pub node_tag: String,
    pub node_started_at: Option<Timestamp>,
    pub nodes: Vec<RemoteNode>,
}

/// A message for an actor on the receiving node.
#[derive(Debug)]
pub struct MessageRequest {
    pub message_id: String,
    pub handler_type: String,
    pub actor_id: String,
    pub origin_node_id: u64,
    pub requires_response: bool,
    pub message: Vec<u8>,
    pub trace_id: String,
}

/// The answer to a request.
#[derive(Debug)]
pub struct ClientResult {
    pub message_id: String,
    pub result: Vec<u8>,
}

/// The failure of a request.
#[derive(Debug)]
pub struct ClientErr {
    pub message_id: String,
    pub error: ActorRefErr,
}

/// A liveness probe.
#[derive(Debug)]
pub struct PingEvent {
    pub message_id: String,
    pub node_id: u64,
    pub system_terminated: bool,
}

/// The answer to a probe.
#[derive(Debug)]
pub struct PongEvent {
    pub message_id: String,
}

/// A request to create an actor on the receiving node.
#[derive(Debug)]
pub struct CreateActorEvent {
    pub message_id: String,
    pub actor_id: String,
    pub actor_type: String,
    pub recipe: Vec<u8>,
}

/// Where an actor lives: on the named node, or nowhere known.
#[derive(Debug)]
pub struct ActorAddress {
    pub actor_id: String,
    pub node_id: Option<u64>,
}

/// A question for the node that hosts an actor.
#[derive(Debug)]
pub struct FindActorEvent {
    pub message_id: String,
    pub actor_id: String,
}

/// The sender of a connection names itself.
#[derive(Debug)]
pub struct IdentifyEvent {
    pub source_node_id: u64,
    pub source_node_tag: String,
}

/// A message published on a distributed stream.
#[derive(Debug)]
pub struct StreamPublishEvent {
    pub topic: String,
    pub key: String,
    pub message: Vec<u8>,
}

} // verus!
