//! Node records and the membership registry.
use crate::NodeId;
use vstd::prelude::*;

verus! {

/// A point in time: seconds and nanoseconds since the Unix epoch, in UTC.
#[derive(Clone, Copy, Debug, PartialEq, Eq, Structural)]
pub struct Timestamp {
    pub seconds: i64,
    pub nanos: i32,
}

impl Timestamp {
    /// Whether `self` is strictly later than `other`.
    pub open spec fn spec_is_after(self, other: Timestamp) -> bool {
        self.seconds > other.seconds || (self.seconds == other.seconds && self.nanos
            > other.nanos)
    }

    /// Whether `self` is strictly later than `other`.
    #[verifier::when_used_as_spec(spec_is_after)]
    pub fn is_after(self, other: Timestamp) -> (r: bool)
        ensures
            r == self.spec_is_after(other),
    {
        self.seconds > other.seconds || (self.seconds == other.seconds && self.nanos
            > other.nanos)
    }
}

/// A member of the cluster as the registry knows it.
#[derive(Debug)]
pub struct RemoteNode {
    pub id: NodeId,
    pub addr: String,
    pub tag: String,
    pub node_started_at: Option<Timestamp>,
}

/// A node record as a mathematical value.
pub struct RemoteNodeView {
    pub id: NodeId,
    pub addr: Seq<char>,
    pub tag: Seq<char>,
    pub node_started_at: Option<Timestamp>,
}

impl View for RemoteNode {
    type V = RemoteNodeView;

    open spec fn view(&self) -> RemoteNodeView {
        RemoteNodeView {
            id: self.id,
            addr: self.addr@,
            tag: self.tag@,
            node_started_at: self.node_started_at,
        }
    }
}

/// The records of a list of nodes as mathematical values.
pub open spec fn node_views(nodes: Seq<RemoteNode>) -> Seq<RemoteNodeView> {
    nodes.map_values(|n: RemoteNode| n@)
}

impl RemoteNode {
    pub fn new(id: NodeId, addr: String, tag: String, node_started_at: Option<Timestamp>) -> (node:
        RemoteNode)
        ensures
            node == (RemoteNode { id, addr, tag, node_started_at }),
    {
        RemoteNode { id, addr, tag, node_started_at }
    }
}

impl Clone for RemoteNode {
    fn clone(&self) -> (node: RemoteNode)
        ensures
            node == *self,
    {
        RemoteNode {
            id: self.id,
            addr: self.addr.clone(),
            tag: self.tag.clone(),
            node_started_at: self.node_started_at,
        }
    }
}

/// What a node can run: the actor types it can create and the messages it
/// has handlers for.
#[derive(Debug)]
pub struct SystemCapabilities {
    pub actors: Vec<String>,
    pub messages: Vec<String>,
}

impl SystemCapabilities {
    /// No capabilities at all.
    pub fn empty() -> (c: SystemCapabilities)
        ensures
            c.actors@ == Seq::<String>::empty(),
            c.messages@ == Seq::<String>::empty(),
    {
        SystemCapabilities { actors: Vec::new(), messages: Vec::new() }
    }
}

/// What a node says of itself when a connection to it opens.
#[derive(Debug)]
pub struct NodeIdentity {
    pub node: RemoteNode,
    pub peers: Vec<RemoteNode>,
    pub capabilities: SystemCapabilities,
}

} // verus!
