//! Remoting: the wire protocol, sessions, pending requests and the cluster.
pub mod api;
pub mod cluster;
pub mod context;
pub mod handler;
pub mod heartbeat;
pub mod net;
pub mod system;

use crate::actor::ActorRefErr;
use vstd::prelude::*;

verus! {

/// What a remote call came to: the encoded answer, or why there is none.
pub enum RemoteResponse {
    /// The encoded answer of the actor.
    Reply(Vec<u8>),
    /// The reason why no answer will come.
    Error(ActorRefErr),
}

} // verus!
