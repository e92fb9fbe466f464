//! The host of shards on one node.
//!
//! A request for an entity goes to the shard of the entity. Where the
//! shard runs on this node, the request is handed to it. Where it does not,
//! or not yet, the request waits while the coordinator is asked where the
//! shard is or is to be. Only so many requests wait for one shard: when
//! the next comes, the one that has waited longest gives way.
use crate::actor::{Actor, ActorRefErr};
use crate::remote::cluster::sharding::coordinator::AllocateShard;
use crate::remote::cluster::sharding::{shard_of, spec_shard_of, ShardId};
use crate::NodeId;
use std::collections::{HashMap, VecDeque};
use vstd::prelude::*;
use vstd::string::StringExecFns;

verus! {

/// How many requests wait for one shard at most, where nothing else is
/// said.
pub const DEFAULT_BUFFER_LIMIT: usize = 1024;

/// Tells a host to start a shard.
#[derive(Clone, Copy, Debug, PartialEq, Eq, Structural)]
pub struct StartShard {
    pub shard_id: ShardId,
}

/// Tells a host to stop a shard.
#[derive(Clone, Copy, Debug, PartialEq, Eq, Structural)]
pub struct StopShard {
    pub shard_id: ShardId,
}

/// A request for an entity.
#[derive(Debug)]
pub struct RemoteEntityRequest {
    /// The identifier of the entity.
    pub actor_id: String,
    /// The kind of message.
    pub message_type: String,
    /// The encoded message.
    pub message: Vec<u8>,
    /// What the entity is made from, should it not exist.
    pub recipe: Option<Vec<u8>>,
}

/// What a host does with a request.
pub enum HostAction {
    /// Hand the request to the shard, which runs on this node.
    Deliver { shard_id: ShardId, request: RemoteEntityRequest },
    /// The request waits. `allocate` asks the coordinator for the shard,
    /// where nothing waited for it yet; `overflow` is the request that gave
    /// way, which fails with the error.
    Wait {
        shard_id: ShardId,
        allocate: Option<AllocateShard>,
        overflow: Option<(RemoteEntityRequest, ActorRefErr)>,
    },
}

/// What a host does once the coordinator has said where a shard is.
pub enum Resolved {
    /// The shard is to run on this node: start it, and hand it what waited.
    StartLocal { start: StartShard, requests: Vec<RemoteEntityRequest> },
    /// The shard runs on another node: send it what waited.
    ForwardTo { node_id: NodeId, requests: Vec<RemoteEntityRequest> },
    /// No host is ready: what waited fails with the error.
    Fail { requests: Vec<RemoteEntityRequest>, error: ActorRefErr },
}

/// The waiting requests of a shard after one more came, and the request
/// that gave way, if the limit was reached.
pub open spec fn buffered(
    waiting: Seq<RemoteEntityRequest>,
    request: RemoteEntityRequest,
    limit: nat,
) -> (Seq<RemoteEntityRequest>, Option<RemoteEntityRequest>) {
    if limit == 0 {
        (waiting, Some(request))
    } else if waiting.len() >= limit {
        (waiting.drop_first().push(request), Some(waiting.first()))
    } else {
        (waiting.push(request), None)
    }
}

/// The state of a host as a mathematical value.
pub struct HostState {
    /// The shards that run on this node.
    pub shards: Set<ShardId>,
    /// The requests that wait, by shard.
    pub waiting: Map<ShardId, Seq<RemoteEntityRequest>>,
}

/// The host of the shards of one kind of entity on one node.
pub struct ShardHost {
    node_id: NodeId,
    shard_count: u32,
    limit: usize,
    shards: HashMap<ShardId, ()>,
    waiting: HashMap<ShardId, VecDeque<RemoteEntityRequest>>,
}

impl Actor for ShardHost {
    open spec fn type_tag() -> Seq<char> {
        "ShardHost"@
    }

    fn actor_type() -> (name: String) {
        String::from_str("ShardHost")
    }
}

impl View for ShardHost {
    type V = HostState;

    closed spec fn view(&self) -> HostState {
        HostState {
            shards: self.shards@.dom(),
            waiting: Map::new(
                |shard: ShardId| self.waiting@.contains_key(shard),
                |shard: ShardId| self.waiting@[shard]@,
            ),
        }
    }
}

impl ShardHost {
    /// The node that the host runs on.
    pub closed spec fn node(&self) -> NodeId {
        self.node_id
    }

    /// The number of shards of the sharding.
    pub closed spec fn count(&self) -> u32 {
        self.shard_count
    }

    /// How many requests wait for one shard at most.
    pub closed spec fn limit(&self) -> usize {
        self.limit
    }

    /// Whether `other` is this host but for its shards and what waits.
    pub open spec fn same_host(&self, other: &ShardHost) -> bool {
        self.node() == other.node() && self.count() == other.count() && self.limit()
            == other.limit()
    }

    /// A host without shards.
    pub fn new(node_id: NodeId, shard_count: u32, limit: usize) -> (host: ShardHost)
        requires
            shard_count > 0,
        ensures
            host.node() == node_id,
            host.count() == shard_count,
            host.limit() == limit,
            host.count() > 0,
            host@.shards == Set::<ShardId>::empty(),
            host@.waiting == Map::<ShardId, Seq<RemoteEntityRequest>>::empty(),
    {
        let host = ShardHost {
            node_id,
            shard_count,
            limit,
            shards: HashMap::new(),
            waiting: HashMap::new(),
        };
        assert(host@.shards =~= Set::<ShardId>::empty());
        assert(host@.waiting =~= Map::<ShardId, Seq<RemoteEntityRequest>>::empty());
        host
    }

    /// Whether the shard runs on this node.
    pub fn hosts(&self, shard_id: ShardId) -> (hosted: bool)
        ensures
            hosted == self@.shards.contains(shard_id),
    {
        self.shards.contains_key(&shard_id)
    }

    /// Starts a shard on this node.
    pub fn handle_start(&mut self, message: StartShard)
        ensures
            final(self)@.shards == old(self)@.shards.insert(message.shard_id),
            final(self)@.waiting == old(self)@.waiting,
            final(self).same_host(old(self)),
    {
        self.shards.insert(message.shard_id, ());
        assert(self@.shards =~= old(self)@.shards.insert(message.shard_id));
        assert(self@.waiting =~= old(self)@.waiting);
    }

    /// Stops a shard on this node; says whether it ran here.
    pub fn handle_stop(&mut self, message: StopShard) -> (hosted: bool)
        ensures
            final(self)@.shards == old(self)@.shards.remove(message.shard_id),
            final(self)@.waiting == old(self)@.waiting,
            final(self).same_host(old(self)),
            hosted == old(self)@.shards.contains(message.shard_id),
    {
        let hosted = self.shards.remove(&message.shard_id).is_some();
        assert(self@.shards =~= old(self)@.shards.remove(message.shard_id));
        assert(self@.waiting =~= old(self)@.waiting);
        hosted
    }

    /// Takes a request for an entity.
    pub fn handle_request(&mut self, request: RemoteEntityRequest) -> (action: HostAction)
        requires
            old(self).count() > 0,
        ensures
            final(self).same_host(old(self)),
            final(self)@.shards == old(self)@.shards,
            ({
                let shard = spec_shard_of(request.actor_id@, old(self).count());
                if old(self)@.shards.contains(shard) {
                    &&& action == (HostAction::Deliver { shard_id: shard, request })
                    &&& final(self)@.waiting == old(self)@.waiting
                } else {
                    let before = if old(self)@.waiting.contains_key(shard) {
                        old(self)@.waiting[shard]
                    } else {
                        Seq::empty()
                    };
                    let (after, gave_way) = buffered(before, request, old(self).limit() as nat);
                    &&& final(self)@.waiting == old(self)@.waiting.insert(shard, after)
                    &&& action matches HostAction::Wait { shard_id, allocate, overflow }
                    &&& shard_id == shard
                    &&& allocate == if old(self)@.waiting.contains_key(shard) {
                        None
                    } else {
                        Some(AllocateShard { shard_id: shard })
                    }
                    &&& overflow == match gave_way {
                        Some(r) => Some((r, ActorRefErr::ShardBufferFull)),
                        None => None,
                    }
                }
            }),
    {
        let shard = shard_of(request.actor_id.as_str(), self.shard_count);
        if self.shards.contains_key(&shard) {
            assert(self@.waiting =~= old(self)@.waiting);
            return HostAction::Deliver { shard_id: shard, request };
        }
        let known = self.waiting.contains_key(&shard);
        let mut queue: VecDeque<RemoteEntityRequest> = match self.waiting.remove(&shard) {
            Some(queue) => queue,
            None => VecDeque::new(),
        };
        let ghost before = queue@;
        let overflow = if self.limit == 0 {
            Some((request, ActorRefErr::ShardBufferFull))
        } else if queue.len() >= self.limit {
            let oldest = queue.pop_front();
            queue.push_back(request);
            proof {
                assert(queue@ =~= before.drop_first().push(request));
            }
            match oldest {
                Some(r) => Some((r, ActorRefErr::ShardBufferFull)),
                None => None,
            }
        } else {
            queue.push_back(request);
            None
        };
        let ghost after = queue@;
        self.waiting.insert(shard, queue);
        proof {
            assert(self@.shards =~= old(self)@.shards);
            assert(self@.waiting =~= old(self)@.waiting.insert(shard, after));
        }
        HostAction::Wait {
            shard_id: shard,
            allocate: if known {
                None
            } else {
                Some(AllocateShard { shard_id: shard })
            },
            overflow,
        }
    }

    /// Takes what waited for a shard out of the host.
    fn take_waiting(&mut self, shard_id: ShardId) -> (requests: Vec<RemoteEntityRequest>)
        ensures
            final(self).same_host(old(self)),
            final(self)@.shards == old(self)@.shards,
            final(self)@.waiting == old(self)@.waiting.remove(shard_id),
            requests@ == if old(self)@.waiting.contains_key(shard_id) {
                old(self)@.waiting[shard_id]
            } else {
                Seq::empty()
            },
    {
        let mut requests: Vec<RemoteEntityRequest> = Vec::new();
        match self.waiting.remove(&shard_id) {
            Some(queue) => {
                let mut queue = queue;
                let ghost all = queue@;
                while queue.len() > 0
                    invariant
                        requests@ + queue@ == all,
                    decreases queue.len(),
                {
                    let ghost left = queue@;
                    let ghost taken = requests@;
                    match queue.pop_front() {
                        Some(request) => {
                            requests.push(request);
                            proof {
                                assert(left == seq![request] + queue@);
                                assert(requests@ + queue@ =~= taken + left);
                            }
                        },
                        None => {},
                    }
                }
                proof {
                    assert(requests@ =~= requests@ + queue@);
                }
            },
            None => {},
        }
        proof {
            assert(self@.shards =~= old(self)@.shards);
            assert(self@.waiting =~= old(self)@.waiting.remove(shard_id));
        }
        requests
    }

    /// Takes the coordinator's answer for a shard: `node_id` is the host of
    /// the shard, or none where no host is ready. What waited for the shard
    /// leaves the host in the order in which it came.
    pub fn handle_allocated(&mut self, shard_id: ShardId, node_id: Option<NodeId>) -> (resolved:
        Resolved)
        ensures
            final(self).same_host(old(self)),
            final(self)@.waiting == old(self)@.waiting.remove(shard_id),
            ({
                let waited = if old(self)@.waiting.contains_key(shard_id) {
                    old(self)@.waiting[shard_id]
                } else {
                    Seq::empty()
                };
                match node_id {
                    Some(node) => if node == old(self).node() {
                        &&& resolved matches Resolved::StartLocal { start, requests }
                        &&& start.shard_id == shard_id
                        &&& requests@ == waited
                        &&& final(self)@.shards == old(self)@.shards.insert(shard_id)
                    } else {
                        &&& resolved matches Resolved::ForwardTo { node_id, requests }
                        &&& node_id == node
                        &&& requests@ == waited
                        &&& final(self)@.shards == old(self)@.shards
                    },
                    None => {
                        &&& resolved matches Resolved::Fail { requests, error }
                        &&& requests@ == waited
                        &&& error == ActorRefErr::ShardUnavailable
                        &&& final(self)@.shards == old(self)@.shards
                    },
                }
            }),
    {
        let requests = self.take_waiting(shard_id);
        match node_id {
            Some(node) => {
                if node == self.node_id {
                    self.handle_start(StartShard { shard_id });
                    Resolved::StartLocal { start: StartShard { shard_id }, requests }
                } else {
                    Resolved::ForwardTo { node_id: node, requests }
                }
            },
            None => Resolved::Fail { requests, error: ActorRefErr::ShardUnavailable },
        }
    }
}

/// The buffer of a shard never holds more than its limit.
pub proof fn buffer_stays_within_limit(
    waiting: Seq<RemoteEntityRequest>,
    request: RemoteEntityRequest,
    limit: nat,
)
    requires
        waiting.len() <= limit,
    ensures
        buffered(waiting, request, limit).0.len() <= limit,
        buffered(waiting, request, limit).1.is_some() <==> waiting.len() == limit,
{
}

} // verus!
