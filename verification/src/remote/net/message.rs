//! The two directions of the session protocol.
use crate::remote::net::proto::{
    ActorAddress, ClientErr, ClientHandshake, ClientResult, CreateActorEvent, FindActorEvent,
    IdentifyEvent, MessageRequest, NodeIdentity, PingEvent, PongEvent, SessionHandshake,
    StreamPublishEvent,
};
use vstd::prelude::*;

verus! {

/// What a server sends to a client.
#[derive(Debug)]
pub enum ClientEvent {
    Identity(NodeIdentity),
    Handshake(ClientHandshake),
    Result(ClientResult),
    Error(ClientErr),
    Ping(PingEvent),
    Pong(PongEvent),
}

/// What a client sends to a server.
#[derive(Debug)]
pub enum SessionEvent {
    Identify(IdentifyEvent),
    Handshake(SessionHandshake),
    FindActor(FindActorEvent),
    RegisterActor(ActorAddress),
    NotifyActor(MessageRequest),
    CreateActor(CreateActorEvent),
    StreamPublish(StreamPublishEvent),
    Ping(PingEvent),
    Pong(PongEvent),
    Result(ClientResult),
    Error(ClientErr),
    /// Reserved; carries nothing and causes nothing.
    Raft,
}

} // verus!
