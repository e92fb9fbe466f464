//! A distributed actor runtime, reduced to the decisions it takes.
//!
//! Every rule of the runtime is a function from plain state and an incoming
//! event to the next state and the action to perform: which actor a message
//! reaches, which pending request a reply completes, which node hosts a
//! shard. Sockets, tasks and timers live outside; they perform the actions
//! returned here and hand the outcome back as the next event.
pub mod actor;
pub mod ident;
pub mod persistence;
pub mod remote;
pub mod table;

use vstd::prelude::*;

verus! {

/// Identifier of a node in the cluster, stable for the node's lifetime.
pub type NodeId = u64;

} // verus!
