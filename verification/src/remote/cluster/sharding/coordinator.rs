//! The coordinator: which node hosts which shard.
//!
//! The coordinator keeps one record for each shard that it has dealt with.
//! A record says where the shard stands: unallocated; being started on a
//! host; allocated to a host; or on its way from one host to another. There
//! is one record for a shard at most, so a shard never has two hosts. A
//! shard without a host goes to the ready host that has the fewest shards,
//! the one with the smaller node identifier where two have equally few.
use crate::actor::Actor;
use crate::remote::cluster::sharding::ShardId;
use crate::NodeId;
use vstd::prelude::*;
use vstd::string::StringExecFns;

verus! {

/// Where a host stands.
#[derive(Clone, Copy, Debug, PartialEq, Eq, Structural)]
pub enum ShardHostStatus {
    /// The host has announced itself and is starting.
    Joining,
    /// The host takes shards.
    Ready,
    /// The host is lost; nothing is allocated to it.
    Unavailable,
}

/// A node that can host shards.
#[derive(Debug)]
pub struct ShardHostState {
    pub node_id: NodeId,
    pub node_tag: String,
    pub status: ShardHostStatus,
}

/// A host as a mathematical value.
pub struct HostView {
    pub node_id: NodeId,
    pub node_tag: Seq<char>,
    pub status: ShardHostStatus,
}

impl View for ShardHostState {
    type V = HostView;

    open spec fn view(&self) -> HostView {
        HostView { node_id: self.node_id, node_tag: self.node_tag@, status: self.status }
    }
}

/// Where a shard stands.
#[derive(Clone, Copy, Debug, PartialEq, Eq, Structural)]
pub enum ShardState {
    /// No host has the shard.
    Unallocated,
    /// The host has been told to start the shard and has not answered yet.
    Allocating(NodeId),
    /// The host runs the shard.
    Allocated(NodeId),
    /// The first host has been told to stop the shard, which is then to
    /// start on the second.
    Migrating(NodeId, NodeId),
}

impl ShardState {
    /// The host that has the shard or is about to have it.
    pub open spec fn spec_owner(self) -> Option<NodeId> {
        match self {
            ShardState::Unallocated => None,
            ShardState::Allocating(host) => Some(host),
            ShardState::Allocated(host) => Some(host),
            ShardState::Migrating(_, to) => Some(to),
        }
    }

    /// The host that has the shard or is about to have it.
    #[verifier::when_used_as_spec(spec_owner)]
    pub fn owner(self) -> (owner: Option<NodeId>)
        ensures
            owner == self.spec_owner(),
    {
        match self {
            ShardState::Unallocated => None,
            ShardState::Allocating(host) => Some(host),
            ShardState::Allocated(host) => Some(host),
            ShardState::Migrating(_, to) => Some(to),
        }
    }

    /// The state of the shard once the node `node` is lost: what the node
    /// had or was about to have is unallocated; what was on its way to
    /// the node stays where it is.
    pub open spec fn spec_without(self, node: NodeId) -> ShardState {
        match self {
            ShardState::Unallocated => ShardState::Unallocated,
            ShardState::Allocating(host) => if host == node {
                ShardState::Unallocated
            } else {
                self
            },
            ShardState::Allocated(host) => if host == node {
                ShardState::Unallocated
            } else {
                self
            },
            ShardState::Migrating(from, to) => if from == node {
                ShardState::Unallocated
            } else if to == node {
                ShardState::Allocated(from)
            } else {
                self
            },
        }
    }

    /// The state of the shard once the node `node` is lost.
    #[verifier::when_used_as_spec(spec_without)]
    pub fn without(self, node: NodeId) -> (state: ShardState)
        ensures
            state == self.spec_without(node),
    {
        match self {
            ShardState::Unallocated => ShardState::Unallocated,
            ShardState::Allocating(host) => if host == node {
                ShardState::Unallocated
            } else {
                self
            },
            ShardState::Allocated(host) => if host == node {
                ShardState::Unallocated
            } else {
                self
            },
            ShardState::Migrating(from, to) => if from == node {
                ShardState::Unallocated
            } else if to == node {
                ShardState::Allocated(from)
            } else {
                self
            },
        }
    }
}

/// What the coordinator persists of a shard: where it stands, and how
/// often it has been allocated.
#[derive(Clone, Copy, Debug, PartialEq, Eq, Structural)]
pub struct ShardRecord {
    pub shard_id: ShardId,
    pub state: ShardState,
    pub generation: u64,
}

/// Asks the coordinator for the host of a shard.
#[derive(Clone, Copy, Debug, PartialEq, Eq, Structural)]
pub struct AllocateShard {
    pub shard_id: ShardId,
}

/// The answer to `AllocateShard`.
#[derive(Clone, Copy, Debug, PartialEq, Eq, Structural)]
pub enum AllocateShardResult {
    /// The shard is hosted by this node.
    Allocated(NodeId),
    /// The shard is to be started on this node; it is allocated once the
    /// node has acknowledged the start.
    Start(NodeId),
    /// The shard is already on its way to this node.
    Pending(NodeId),
    /// No host is ready to take the shard.
    Unavailable,
}

/// A shard to move for the sake of balance: the donor is to stop it, and
/// the recipient is then to start it.
#[derive(Clone, Copy, Debug, PartialEq, Eq, Structural)]
pub struct Rebalance {
    pub shard_id: ShardId,
    pub donor: NodeId,
    pub recipient: NodeId,
}

/// The state of a coordinator as a mathematical value.
pub struct Allocation {
    pub hosts: Seq<HostView>,
    pub shards: Seq<ShardRecord>,
}

/// The records of the shards that `node` has or is about to have.
pub open spec fn owned_by(node: NodeId) -> spec_fn(ShardRecord) -> bool {
    |r: ShardRecord| r.state.spec_owner() == Some(node)
}

/// The records of the shards that run on `node` and are not on their way
/// elsewhere.
pub open spec fn settled_at(node: NodeId) -> spec_fn(ShardRecord) -> bool {
    |r: ShardRecord| r.state == ShardState::Allocated(node)
}

/// The records of the shards that have no host.
pub open spec fn orphaned() -> spec_fn(ShardRecord) -> bool {
    |r: ShardRecord| r.state == ShardState::Unallocated
}

/// The record after the node `node` was lost.
pub open spec fn released_by(node: NodeId) -> spec_fn(ShardRecord) -> ShardRecord {
    |r: ShardRecord| ShardRecord { state: r.state.spec_without(node), ..r }
}

/// The host after it was lost, if it is `node`.
pub open spec fn lost_if(node: NodeId) -> spec_fn(HostView) -> HostView {
    |h: HostView|
        if h.node_id == node {
            HostView { status: ShardHostStatus::Unavailable, ..h }
        } else {
            h
        }
}

/// The shards of a list of records.
pub open spec fn shard_ids(records: Seq<ShardRecord>) -> Seq<ShardId> {
    records.map_values(|r: ShardRecord| r.shard_id)
}

/// The generation after `generation`.
pub open spec fn next_generation(generation: u64) -> u64 {
    if generation < u64::MAX {
        (generation + 1) as u64
    } else {
        generation
    }
}

impl Allocation {
    /// Whether a host has the node identifier `node`.
    pub open spec fn has_host(self, node: NodeId) -> bool {
        exists|i: int| 0 <= i < self.hosts.len() && (#[trigger] self.hosts[i]).node_id == node
    }

    /// Where the host `node` stands among the hosts.
    pub open spec fn host_index(self, node: NodeId) -> int {
        choose|i: int| 0 <= i < self.hosts.len() && (#[trigger] self.hosts[i]).node_id == node
    }

    /// Whether `node` is a host that is ready.
    pub open spec fn is_ready(self, node: NodeId) -> bool {
        exists|i: int|
            0 <= i < self.hosts.len() && (#[trigger] self.hosts[i]).node_id == node
                && self.hosts[i].status == ShardHostStatus::Ready
    }

    /// Whether the shard has a record.
    pub open spec fn has_record(self, shard: ShardId) -> bool {
        exists|i: int| 0 <= i < self.shards.len() && (#[trigger] self.shards[i]).shard_id == shard
    }

    /// Where the record of the shard stands.
    pub open spec fn record_index(self, shard: ShardId) -> int {
        choose|i: int| 0 <= i < self.shards.len() && (#[trigger] self.shards[i]).shard_id == shard
    }

    /// Where the shard stands; a shard without a record is unallocated.
    pub open spec fn state_of(self, shard: ShardId) -> ShardState {
        if self.has_record(shard) {
            self.shards[self.record_index(shard)].state
        } else {
            ShardState::Unallocated
        }
    }

    /// How often the shard has been allocated.
    pub open spec fn generation_of(self, shard: ShardId) -> u64 {
        if self.has_record(shard) {
            self.shards[self.record_index(shard)].generation
        } else {
            0
        }
    }

    /// The host that runs the shard, none where it is not allocated.
    pub open spec fn host_of(self, shard: ShardId) -> Option<NodeId> {
        match self.state_of(shard) {
            ShardState::Allocated(host) => Some(host),
            ShardState::Migrating(from, _) => Some(from),
            _ => None,
        }
    }

    /// How many shards `node` has or is about to have.
    pub open spec fn load(self, node: NodeId) -> nat {
        self.shards.filter(owned_by(node)).len()
    }

    /// No two hosts share a node identifier, and no two records are for
    /// the same shard: a shard stands in one place, and has one host at
    /// most.
    pub open spec fn wf(self) -> bool {
        &&& forall|i: int, j: int|
            0 <= i < j < self.hosts.len() ==> (#[trigger] self.hosts[i]).node_id != (
            #[trigger] self.hosts[j]).node_id
        &&& forall|i: int, j: int|
            0 <= i < j < self.shards.len() ==> (#[trigger] self.shards[i]).shard_id != (
            #[trigger] self.shards[j]).shard_id
    }

    /// Whether the host `a` is to be preferred to the host `b` when a
    /// shard looks for a host: it has fewer shards, or equally few and the
    /// smaller node identifier.
    pub open spec fn lighter(self, a: NodeId, b: NodeId) -> bool {
        self.load(a) < self.load(b) || (self.load(a) == self.load(b) && a <= b)
    }

    /// Whether the host `a` is to give a shard away rather than the host
    /// `b`: it has more shards, or equally many and the smaller node
    /// identifier.
    pub open spec fn heavier(self, a: NodeId, b: NodeId) -> bool {
        self.load(a) > self.load(b) || (self.load(a) == self.load(b) && a <= b)
    }

    /// Whether `node` is the ready host that a shard without a host goes to.
    pub open spec fn is_least_loaded(self, node: NodeId) -> bool {
        &&& self.is_ready(node)
        &&& forall|other: NodeId| #[trigger] self.is_ready(other) ==> self.lighter(node, other)
    }

    /// Whether `node` is the ready host that gives a shard away when the
    /// hosts are out of balance.
    pub open spec fn is_most_loaded(self, node: NodeId) -> bool {
        &&& self.is_ready(node)
        &&& forall|other: NodeId| #[trigger] self.is_ready(other) ==> self.heavier(node, other)
    }

    /// The state with `record` in place of the record that its shard had,
    /// or added to the records where the shard had none.
    pub open spec fn restored(self, record: ShardRecord) -> Allocation {
        Allocation {
            hosts: self.hosts,
            shards: if self.has_record(record.shard_id) {
                self.shards.update(self.record_index(record.shard_id), record)
            } else {
                self.shards.push(record)
            },
        }
    }

    /// The state after a journal of records was read back, in order.
    pub open spec fn restored_all(self, journal: Seq<ShardRecord>) -> Allocation
        decreases journal.len(),
    {
        if journal.len() == 0 {
            self
        } else {
            self.restored_all(journal.drop_last()).restored(journal.last())
        }
    }

    /// The state with the shard standing at `state`.
    pub open spec fn moved(self, shard: ShardId, state: ShardState) -> Allocation {
        self.restored(
            ShardRecord { shard_id: shard, state, generation: self.generation_of(shard) },
        )
    }

    /// The answer for a shard that needs no new host: the host that runs
    /// it, or the host that it is on its way to, where that host is ready.
    pub open spec fn settled(self, shard: ShardId) -> Option<AllocateShardResult> {
        match self.state_of(shard) {
            ShardState::Allocated(host) => if self.is_ready(host) {
                Some(AllocateShardResult::Allocated(host))
            } else {
                None
            },
            ShardState::Allocating(host) => if self.is_ready(host) {
                Some(AllocateShardResult::Pending(host))
            } else {
                None
            },
            ShardState::Migrating(_, to) => if self.is_ready(to) {
                Some(AllocateShardResult::Pending(to))
            } else {
                None
            },
            ShardState::Unallocated => None,
        }
    }

    /// Whether `result`, with the state `after`, answers the question for
    /// the host of `shard`.
    ///
    /// A shard that is allocated to a ready host, or on its way to one,
    /// stays as it is. Any other shard is to be started on the least loaded
    /// ready host and counts as being allocated to it from now on. Where no
    /// host is ready, nothing changes.
    pub open spec fn allocates(self, shard: ShardId, result: AllocateShardResult, after: Allocation) -> bool {
        match self.settled(shard) {
            Some(answer) => result == answer && after == self,
            None => match result {
                AllocateShardResult::Start(node) => self.is_least_loaded(node) && after
                    == self.moved(shard, ShardState::Allocating(node)),
                AllocateShardResult::Unavailable => after == self && forall|node: NodeId|
                    !self.is_ready(node),
                _ => false,
            },
        }
    }

    /// The state after `node` acknowledged the start of `shard`: where the
    /// shard was being started on `node`, it is now allocated to it and is
    /// one generation older.
    pub open spec fn started(self, shard: ShardId, node: NodeId) -> Allocation {
        if self.state_of(shard) == ShardState::Allocating(node) {
            self.restored(
                ShardRecord {
                    shard_id: shard,
                    state: ShardState::Allocated(node),
                    generation: next_generation(self.generation_of(shard)),
                },
            )
        } else {
            self
        }
    }

    /// The state after `node` failed to start `shard`: where the shard was
    /// being started on `node`, it is unallocated.
    pub open spec fn start_failed(self, shard: ShardId, node: NodeId) -> Allocation {
        if self.state_of(shard) == ShardState::Allocating(node) {
            self.moved(shard, ShardState::Unallocated)
        } else {
            self
        }
    }

    /// The state after `node` confirmed that it stopped `shard`: a shard on
    /// its way from `node` is now being started where it was going; a shard
    /// that was allocated to `node` is unallocated.
    pub open spec fn stopped(self, shard: ShardId, node: NodeId) -> Allocation {
        match self.state_of(shard) {
            ShardState::Migrating(from, to) => if from == node {
                self.moved(shard, ShardState::Allocating(to))
            } else {
                self
            },
            ShardState::Allocated(host) => if host == node {
                self.moved(shard, ShardState::Unallocated)
            } else {
                self
            },
            _ => self,
        }
    }

    /// The state after the host `node` was lost: it is unavailable, and no
    /// shard stands at it any more.
    pub open spec fn lost(self, node: NodeId) -> Allocation {
        Allocation {
            hosts: self.hosts.map_values(lost_if(node)),
            shards: self.shards.map_values(released_by(node)),
        }
    }

    /// The state after a host announced itself, or announced itself again:
    /// a new host is added at the end; a known host gets the tag and the
    /// status that it now announces.
    pub open spec fn added(self, host: HostView) -> Allocation {
        Allocation {
            hosts: if self.has_host(host.node_id) {
                self.hosts.update(self.host_index(host.node_id), host)
            } else {
                self.hosts.push(host)
            },
            shards: self.shards,
        }
    }

    /// Whether `step`, with the state `after`, is what a look at the
    /// balance comes to.
    ///
    /// Where the most loaded ready host has at least two shards more than
    /// the least loaded one, the first shard that is allocated to it is to
    /// move to the least loaded host, and is from now on on its way there.
    pub open spec fn rebalances(self, step: Option<Rebalance>, after: Allocation) -> bool {
        match step {
            Some(step) => {
                &&& self.is_most_loaded(step.donor)
                &&& self.is_least_loaded(step.recipient)
                &&& self.load(step.donor) >= self.load(step.recipient) + 2
                &&& self.shards.filter(settled_at(step.donor)).len() > 0
                &&& self.shards.filter(settled_at(step.donor)).first().shard_id == step.shard_id
                &&& after == self.moved(
                    step.shard_id,
                    ShardState::Migrating(step.donor, step.recipient),
                )
            },
            None => {
                &&& after == self
                &&& forall|donor: NodeId, recipient: NodeId|
                    self.is_most_loaded(donor) && self.is_least_loaded(recipient) && self.load(donor)
                        >= self.load(recipient) + 2 ==> self.shards.filter(
                        settled_at(donor),
                    ).len() == 0
            },
        }
    }
}

/// The coordinator of the shards of one kind of entity.
pub struct ShardCoordinator {
    shard_entity: String,
    hosts: Vec<ShardHostState>,
    shards: Vec<ShardRecord>,
}

impl Actor for ShardCoordinator {
    open spec fn type_tag() -> Seq<char> {
        "ShardCoordinator"@
    }

    fn actor_type() -> (name: String) {
        String::from_str("ShardCoordinator")
    }
}

impl View for ShardCoordinator {
    type V = Allocation;

    closed spec fn view(&self) -> Allocation {
        Allocation { hosts: self.hosts@.map_values(|h: ShardHostState| h@), shards: self.shards@ }
    }
}

impl ShardCoordinator {
    /// The kind of entity whose shards the coordinator allocates.
    pub closed spec fn entity(&self) -> Seq<char> {
        self.shard_entity@
    }

    /// A coordinator without hosts and without records.
    pub fn new(shard_entity: String) -> (coordinator: ShardCoordinator)
        ensures
            coordinator.entity() == shard_entity@,
            coordinator@.hosts == Seq::<HostView>::empty(),
            coordinator@.shards == Seq::<ShardRecord>::empty(),
            coordinator@.wf(),
    {
        let coordinator = ShardCoordinator { shard_entity, hosts: Vec::new(), shards: Vec::new() };
        assert(coordinator@.hosts =~= Seq::<HostView>::empty());
        coordinator
    }

    /// A coordinator that starts again from the records it had persisted:
    /// it knows no hosts yet, and each shard has the record that was
    /// persisted for it last.
    pub fn recover(shard_entity: String, journal: &Vec<ShardRecord>) -> (coordinator:
        ShardCoordinator)
        ensures
            coordinator.entity() == shard_entity@,
            coordinator@ == (Allocation {
                hosts: Seq::empty(),
                shards: Seq::empty(),
            }).restored_all(journal@),
            coordinator@.wf(),
    {
        let mut coordinator = ShardCoordinator::new(shard_entity);
        let ghost start = coordinator@;
        let mut i: usize = 0;
        proof {
            assert(journal@.take(0) =~= Seq::<ShardRecord>::empty());
        }
        while i < journal.len()
            invariant
                i <= journal.len(),
                coordinator.entity() == shard_entity@,
                coordinator@.wf(),
                coordinator@ == start.restored_all(journal@.take(i as int)),
            decreases journal.len() - i,
        {
            proof {
                assert(journal@.take(i as int + 1).drop_last() == journal@.take(i as int));
                assert(journal@.take(i as int + 1).last() == journal@[i as int]);
            }
            coordinator.restore(journal[i]);
            i += 1;
        }
        proof {
            assert(journal@.take(i as int) == journal@);
        }
        coordinator
    }

    /// Puts a record in the place of the record that its shard had.
    fn restore(&mut self, record: ShardRecord)
        requires
            old(self)@.wf(),
        ensures
            final(self)@ == old(self)@.restored(record),
            final(self)@.wf(),
            final(self).entity() == old(self).entity(),
    {
        let ghost before = self@;
        match self.find_record(record.shard_id) {
            Some(i) => {
                self.shards.set(i, record);
                proof {
                    assert(self@.hosts =~= before.hosts);
                }
            },
            None => {
                self.shards.push(record);
                proof {
                    assert(self@.hosts =~= before.hosts);
                }
            },
        }
        proof {
            lemma_restored_wf(before, record);
        }
    }

    /// Where the host `node` stands, if it is known.
    fn find_host(&self, node: NodeId) -> (at: Option<usize>)
        requires
            self@.wf(),
        ensures
            at.is_some() == self@.has_host(node),
            at matches Some(i) ==> i == self@.host_index(node) && i < self@.hosts.len()
                && self@.hosts[i as int].node_id == node,
    {
        let mut i: usize = 0;
        while i < self.hosts.len()
            invariant
                i <= self.hosts.len(),
                self@.wf(),
                self@.hosts.len() == self.hosts@.len(),
                forall|j: int| 0 <= j < i ==> (#[trigger] self@.hosts[j]).node_id != node,
            decreases self.hosts.len() - i,
        {
            assert(self@.hosts[i as int] == self.hosts@[i as int]@);
            if self.hosts[i].node_id == node {
                proof {
                    let k = self@.host_index(node);
                    if k < i {
                        assert(self@.hosts[k].node_id != self@.hosts[i as int].node_id);
                    } else if i < k {
                        assert(self@.hosts[i as int].node_id != self@.hosts[k].node_id);
                    }
                }
                return Some(i);
            }
            i += 1;
        }
        None
    }

    /// Where the record of `shard` stands, if it has one.
    fn find_record(&self, shard: ShardId) -> (at: Option<usize>)
        requires
            self@.wf(),
        ensures
            at.is_some() == self@.has_record(shard),
            at matches Some(i) ==> i == self@.record_index(shard) && i < self@.shards.len()
                && self@.shards[i as int].shard_id == shard,
    {
        let mut i: usize = 0;
        while i < self.shards.len()
            invariant
                i <= self.shards.len(),
                self@.wf(),
                forall|j: int| 0 <= j < i ==> (#[trigger] self@.shards[j]).shard_id != shard,
            decreases self.shards.len() - i,
        {
            if self.shards[i].shard_id == shard {
                proof {
                    let k = self@.record_index(shard);
                    if k < i {
                        assert(self@.shards[k].shard_id != self@.shards[i as int].shard_id);
                    } else if i < k {
                        assert(self@.shards[i as int].shard_id != self@.shards[k].shard_id);
                    }
                }
                return Some(i);
            }
            i += 1;
        }
        None
    }

    /// The status of the host `node`, if it is known.
    pub fn host_status(&self, node: NodeId) -> (status: Option<ShardHostStatus>)
        requires
            self@.wf(),
        ensures
            status == if self@.has_host(node) {
                Some(self@.hosts[self@.host_index(node)].status)
            } else {
                None
            },
            (status == Some(ShardHostStatus::Ready)) == self@.is_ready(node),
    {
        match self.find_host(node) {
            Some(i) => {
                assert(self@.hosts[i as int] == self.hosts@[i as int]@);
                proof {
                    if self@.is_ready(node) {
                        let k = choose|k: int|
                            0 <= k < self@.hosts.len() && (#[trigger] self@.hosts[k]).node_id
                                == node && self@.hosts[k].status == ShardHostStatus::Ready;
                        if k < i {
                            assert(self@.hosts[k].node_id != self@.hosts[i as int].node_id);
                        } else if i < k {
                            assert(self@.hosts[i as int].node_id != self@.hosts[k].node_id);
                        }
                    }
                }
                Some(self.hosts[i].status)
            },
            None => None,
        }
    }

    /// Whether `node` is a host that is ready.
    fn is_ready(&self, node: NodeId) -> (ready: bool)
        requires
            self@.wf(),
        ensures
            ready == self@.is_ready(node),
    {
        match self.host_status(node) {
            Some(ShardHostStatus::Ready) => true,
            _ => false,
        }
    }

    /// The record of `shard`: where it stands and how often it has been
    /// allocated.
    pub fn shard_record(&self, shard: ShardId) -> (record: ShardRecord)
        requires
            self@.wf(),
        ensures
            record == (ShardRecord {
                shard_id: shard,
                state: self@.state_of(shard),
                generation: self@.generation_of(shard),
            }),
    {
        match self.find_record(shard) {
            Some(i) => self.shards[i],
            None => ShardRecord { shard_id: shard, state: ShardState::Unallocated, generation: 0 },
        }
    }

    /// The host that runs `shard`, none where it is not allocated.
    pub fn shard_host(&self, shard: ShardId) -> (host: Option<NodeId>)
        requires
            self@.wf(),
        ensures
            host == self@.host_of(shard),
    {
        match self.shard_record(shard).state {
            ShardState::Allocated(host) => Some(host),
            ShardState::Migrating(from, _) => Some(from),
            _ => None,
        }
    }

    /// How many shards `node` has or is about to have.
    pub fn shard_count(&self, node: NodeId) -> (n: usize)
        ensures
            n == self@.load(node),
    {
        let mut n: usize = 0;
        let mut i: usize = 0;
        proof {
            assert(self.shards@.take(0) =~= Seq::<ShardRecord>::empty());
            assert(self.shards@.take(0).filter(owned_by(node)) =~= Seq::<ShardRecord>::empty());
        }
        while i < self.shards.len()
            invariant
                i <= self.shards.len(),
                n <= i,
                n == self.shards@.take(i as int).filter(owned_by(node)).len(),
            decreases self.shards.len() - i,
        {
            let record = self.shards[i];
            proof {
                let seen = self.shards@.take(i as int);
                assert(self.shards@.take(i as int + 1) == seen.push(record));
                Seq::lemma_filter_push(seen, record, owned_by(node));
            }
            if record.state.owner() == Some(node) {
                n += 1;
            }
            i += 1;
        }
        proof {
            assert(self.shards@.take(i as int) == self.shards@);
        }
        n
    }

    /// The records to persist: one for each shard that the coordinator has
    /// dealt with.
    pub fn records(&self) -> (records: Vec<ShardRecord>)
        ensures
            records@ == self@.shards,
    {
        let mut records: Vec<ShardRecord> = Vec::new();
        let mut i: usize = 0;
        while i < self.shards.len()
            invariant
                i <= self.shards.len(),
                records@ == self.shards@.take(i as int),
            decreases self.shards.len() - i,
        {
            records.push(self.shards[i]);
            proof {
                assert(self.shards@.take(i as int + 1) == self.shards@.take(i as int).push(
                    self.shards@[i as int],
                ));
            }
            i += 1;
        }
        proof {
            assert(self.shards@.take(i as int) == self.shards@);
        }
        records
    }

    /// Takes note of a host that announces itself.
    pub fn add_host(&mut self, host: ShardHostState)
        requires
            old(self)@.wf(),
        ensures
            final(self)@ == old(self)@.added(host@),
            final(self)@.wf(),
            final(self).entity() == old(self).entity(),
    {
        let ghost before = self@;
        match self.find_host(host.node_id) {
            Some(i) => {
                self.hosts.set(i, host);
                proof {
                    assert(self@.hosts =~= before.hosts.update(i as int, host@));
                    assert forall|a: int, b: int| 0 <= a < b < self@.hosts.len() implies (
                    #[trigger] self@.hosts[a]).node_id != (#[trigger] self@.hosts[b]).node_id by {
                        assert(before.hosts[a].node_id != before.hosts[b].node_id);
                    }
                }
            },
            None => {
                self.hosts.push(host);
                proof {
                    assert(self@.hosts =~= before.hosts.push(host@));
                    assert forall|a: int, b: int| 0 <= a < b < self@.hosts.len() implies (
                    #[trigger] self@.hosts[a]).node_id != (#[trigger] self@.hosts[b]).node_id by {
                        if b < before.hosts.len() {
                            assert(before.hosts[a].node_id != before.hosts[b].node_id);
                        } else {
                            assert(before.hosts[a].node_id != host.node_id);
                        }
                    }
                }
            },
        }
    }

    /// The ready host to which a shard without a host goes: the one with the
    /// fewest shards, with the smaller node identifier among equals.
    pub fn least_loaded(&self) -> (node: Option<NodeId>)
        requires
            self@.wf(),
        ensures
            match node {
                Some(node) => self@.is_least_loaded(node),
                None => forall|other: NodeId| !self@.is_ready(other),
            },
    {
        let mut best: Option<(NodeId, usize)> = None;
        let mut i: usize = 0;
        while i < self.hosts.len()
            invariant
                i <= self.hosts.len(),
                self@.wf(),
                self@.hosts.len() == self.hosts@.len(),
                match best {
                    Some((node, load)) => {
                        &&& self@.is_ready(node)
                        &&& load == self@.load(node)
                        &&& forall|j: int|
                            0 <= j < i && (#[trigger] self@.hosts[j]).status
                                == ShardHostStatus::Ready ==> self@.lighter(
                                node,
                                self@.hosts[j].node_id,
                            )
                    },
                    None => forall|j: int|
                        0 <= j < i ==> (#[trigger] self@.hosts[j]).status != ShardHostStatus::Ready,
                },
            decreases self.hosts.len() - i,
        {
            assert(self@.hosts[i as int] == self.hosts@[i as int]@);
            if self.hosts[i].status == ShardHostStatus::Ready {
                let node = self.hosts[i].node_id;
                let load = self.shard_count(node);
                let better = match best {
                    Some((other, least)) => load < least || (load == least && node <= other),
                    None => true,
                };
                if better {
                    best = Some((node, load));
                }
            }
            i += 1;
        }
        match best {
            Some((node, _)) => {
                proof {
                    assert forall|other: NodeId| #[trigger] self@.is_ready(other) implies self@.lighter(
                        node,
                        other,
                    ) by {
                        let k = choose|k: int|
                            0 <= k < self@.hosts.len() && (#[trigger] self@.hosts[k]).node_id
                                == other && self@.hosts[k].status == ShardHostStatus::Ready;
                        assert(self@.lighter(node, self@.hosts[k].node_id));
                    }
                }
                Some(node)
            },
            None => None,
        }
    }

    /// The ready host that gives a shard away when the hosts are out of
    /// balance: the one with the most shards, with the smaller node
    /// identifier among equals.
    pub fn most_loaded(&self) -> (node: Option<NodeId>)
        requires
            self@.wf(),
        ensures
            match node {
                Some(node) => self@.is_most_loaded(node),
                None => forall|other: NodeId| !self@.is_ready(other),
            },
    {
        let mut best: Option<(NodeId, usize)> = None;
        let mut i: usize = 0;
        while i < self.hosts.len()
            invariant
                i <= self.hosts.len(),
                self@.wf(),
                self@.hosts.len() == self.hosts@.len(),
                match best {
                    Some((node, load)) => {
                        &&& self@.is_ready(node)
                        &&& load == self@.load(node)
                        &&& forall|j: int|
                            0 <= j < i && (#[trigger] self@.hosts[j]).status
                                == ShardHostStatus::Ready ==> self@.heavier(
                                node,
                                self@.hosts[j].node_id,
                            )
                    },
                    None => forall|j: int|
                        0 <= j < i ==> (#[trigger] self@.hosts[j]).status != ShardHostStatus::Ready,
                },
            decreases self.hosts.len() - i,
        {
            assert(self@.hosts[i as int] == self.hosts@[i as int]@);
            if self.hosts[i].status == ShardHostStatus::Ready {
                let node = self.hosts[i].node_id;
                let load = self.shard_count(node);
                let better = match best {
                    Some((other, most)) => load > most || (load == most && node <= other),
                    None => true,
                };
                if better {
                    best = Some((node, load));
                }
            }
            i += 1;
        }
        match best {
            Some((node, _)) => {
                proof {
                    assert forall|other: NodeId| #[trigger] self@.is_ready(other) implies self@.heavier(
                        node,
                        other,
                    ) by {
                        let k = choose|k: int|
                            0 <= k < self@.hosts.len() && (#[trigger] self@.hosts[k]).node_id
                                == other && self@.hosts[k].status == ShardHostStatus::Ready;
                        assert(self@.heavier(node, self@.hosts[k].node_id));
                    }
                }
                Some(node)
            },
            None => None,
        }
    }

    /// Answers the question for the host of a shard.
    pub fn allocate_shard(&mut self, message: AllocateShard) -> (result: AllocateShardResult)
        requires
            old(self)@.wf(),
        ensures
            old(self)@.allocates(message.shard_id, result, final(self)@),
            final(self)@.wf(),
            final(self).entity() == old(self).entity(),
    {
        let record = self.shard_record(message.shard_id);
        let settled = match record.state {
            ShardState::Allocated(host) => if self.is_ready(host) {
                Some(AllocateShardResult::Allocated(host))
            } else {
                None
            },
            ShardState::Allocating(host) => if self.is_ready(host) {
                Some(AllocateShardResult::Pending(host))
            } else {
                None
            },
            ShardState::Migrating(_, to) => if self.is_ready(to) {
                Some(AllocateShardResult::Pending(to))
            } else {
                None
            },
            ShardState::Unallocated => None,
        };
        match settled {
            Some(answer) => answer,
            None => match self.least_loaded() {
                Some(node) => {
                    self.restore(ShardRecord { state: ShardState::Allocating(node), ..record });
                    AllocateShardResult::Start(node)
                },
                None => AllocateShardResult::Unavailable,
            },
        }
    }

    /// Notes that `node` has acknowledged the start of `shard`. Where the
    /// shard was being started on `node`, the new record is handed back to
    /// be persisted; an acknowledgement that comes too late changes nothing.
    pub fn shard_started(&mut self, shard: ShardId, node: NodeId) -> (record: Option<ShardRecord>)
        requires
            old(self)@.wf(),
        ensures
            final(self)@ == old(self)@.started(shard, node),
            final(self)@.wf(),
            final(self).entity() == old(self).entity(),
            record == if old(self)@.state_of(shard) == ShardState::Allocating(node) {
                Some(
                    ShardRecord {
                        shard_id: shard,
                        state: ShardState::Allocated(node),
                        generation: next_generation(old(self)@.generation_of(shard)),
                    },
                )
            } else {
                None
            },
    {
        let known = self.shard_record(shard);
        if known.state == ShardState::Allocating(node) {
            let generation = if known.generation < u64::MAX {
                known.generation + 1
            } else {
                known.generation
            };
            let record = ShardRecord {
                shard_id: shard,
                state: ShardState::Allocated(node),
                generation,
            };
            self.restore(record);
            Some(record)
        } else {
            None
        }
    }

    /// Notes that `node` could not start `shard`: where the shard was being
    /// started on `node`, it is unallocated again. Says whether it was.
    pub fn shard_start_failed(&mut self, shard: ShardId, node: NodeId) -> (released: bool)
        requires
            old(self)@.wf(),
        ensures
            final(self)@ == old(self)@.start_failed(shard, node),
            final(self)@.wf(),
            final(self).entity() == old(self).entity(),
            released == (old(self)@.state_of(shard) == ShardState::Allocating(node)),
    {
        let known = self.shard_record(shard);
        if known.state == ShardState::Allocating(node) {
            self.restore(ShardRecord { state: ShardState::Unallocated, ..known });
            true
        } else {
            false
        }
    }

    /// Notes that `node` has confirmed that it stopped `shard`. A shard on
    /// its way from `node` is to be started where it was going, and that
    /// host is handed back; a shard that was allocated to `node` is
    /// unallocated.
    pub fn shard_stopped(&mut self, shard: ShardId, node: NodeId) -> (start: Option<NodeId>)
        requires
            old(self)@.wf(),
        ensures
            final(self)@ == old(self)@.stopped(shard, node),
            final(self)@.wf(),
            final(self).entity() == old(self).entity(),
            start == match old(self)@.state_of(shard) {
                ShardState::Migrating(from, to) => if from == node {
                    Some(to)
                } else {
                    None
                },
                _ => None,
            },
    {
        let known = self.shard_record(shard);
        match known.state {
            ShardState::Migrating(from, to) => {
                if from == node {
                    self.restore(ShardRecord { state: ShardState::Allocating(to), ..known });
                    Some(to)
                } else {
                    None
                }
            },
            ShardState::Allocated(host) => {
                if host == node {
                    self.restore(ShardRecord { state: ShardState::Unallocated, ..known });
                }
                None
            },
            _ => None,
        }
    }

    /// Notes that the host `node` is lost: it is unavailable, and no shard
    /// stands at it any more. The shards that are without a host afterwards
    /// are handed back.
    pub fn host_lost(&mut self, node: NodeId) -> (orphans: Vec<ShardId>)
        requires
            old(self)@.wf(),
        ensures
            final(self)@ == old(self)@.lost(node),
            final(self)@.wf(),
            final(self).entity() == old(self).entity(),
            orphans@ == shard_ids(final(self)@.shards.filter(orphaned())),
            forall|shard: ShardId| final(self)@.state_of(shard).spec_owner() != Some(node),
            final(self)@.load(node) == 0,
    {
        let ghost before = self@;
        let mut orphans: Vec<ShardId> = Vec::new();
        let mut i: usize = 0;
        proof {
            assert(self.shards@.take(0) =~= Seq::<ShardRecord>::empty());
            assert(self.shards@.take(0).filter(orphaned()) =~= Seq::<ShardRecord>::empty());
            assert(orphans@ =~= shard_ids(self.shards@.take(0).filter(orphaned())));
        }
        while i < self.shards.len()
            invariant
                i <= self.shards.len(),
                self.shards@.len() == before.shards.len(),
                self.hosts == old(self).hosts,
                self.shard_entity == old(self).shard_entity,
                before.shards == old(self).shards@,
                forall|j: int| 0 <= j < i ==> self.shards@[j] == released_by(node)(before.shards[j]),
                forall|j: int| i <= j < before.shards.len() ==> self.shards@[j] == before.shards[j],
                orphans@ == shard_ids(self.shards@.take(i as int).filter(orphaned())),
            decreases self.shards.len() - i,
        {
            let record = self.shards[i];
            let released = ShardRecord { state: record.state.without(node), ..record };
            let ghost held = self.shards@;
            self.shards.set(i, released);
            proof {
                let seen = held.take(i as int);
                assert(self.shards@.take(i as int) =~= seen);
                assert(self.shards@.take(i as int + 1) =~= seen.push(released));
                Seq::lemma_filter_push(seen, released, orphaned());
                Seq::lemma_push_map_commute(
                    seen.filter(orphaned()),
                    |r: ShardRecord| r.shard_id,
                    released,
                );
            }
            if released.state == ShardState::Unallocated {
                orphans.push(released.shard_id);
                proof {
                    assert(orphans@ =~= shard_ids(
                        self.shards@.take(i as int + 1).filter(orphaned()),
                    ));
                }
            }
            i += 1;
        }
        proof {
            assert(self.shards@.take(i as int) == self.shards@);
            assert(self.shards@ =~= before.shards.map_values(released_by(node)));
        }
        let mut k: usize = 0;
        let ghost hosts_before = self.hosts@;
        while k < self.hosts.len()
            invariant
                k <= self.hosts.len(),
                self.hosts@.len() == hosts_before.len(),
                self.shards@ == before.shards.map_values(released_by(node)),
                self.shard_entity == old(self).shard_entity,
                orphans@ == shard_ids(self.shards@.filter(orphaned())),
                forall|j: int|
                    0 <= j < k ==> (#[trigger] self.hosts@[j])@ == lost_if(node)(
                        hosts_before[j]@,
                    ),
                forall|j: int| k <= j < hosts_before.len() ==> self.hosts@[j] == hosts_before[j],
            decreases self.hosts.len() - k,
        {
            if self.hosts[k].node_id == node {
                let tag = self.hosts[k].node_tag.clone();
                self.hosts.set(
                    k,
                    ShardHostState {
                        node_id: node,
                        node_tag: tag,
                        status: ShardHostStatus::Unavailable,
                    },
                );
            }
            k += 1;
        }
        proof {
            assert(before.hosts == hosts_before.map_values(|h: ShardHostState| h@));
            assert(self@.hosts =~= before.hosts.map_values(lost_if(node)));
            assert(self@.shards =~= before.shards.map_values(released_by(node)));
            lemma_lost_wf(before, node);
        }
        orphans
    }

    /// Looks at the balance of the hosts and, where it is off, sets a shard
    /// on its way from the most loaded host to the least loaded one.
    pub fn rebalance(&mut self) -> (step: Option<Rebalance>)
        requires
            old(self)@.wf(),
        ensures
            old(self)@.rebalances(step, final(self)@),
            final(self)@.wf(),
            final(self).entity() == old(self).entity(),
    {
        let donor = match self.most_loaded() {
            Some(donor) => donor,
            None => {
                return None;
            },
        };
        let recipient = match self.least_loaded() {
            Some(recipient) => recipient,
            None => {
                return None;
            },
        };
        proof {
            lemma_extremes_are_unique(self@, donor, recipient);
        }
        let most = self.shard_count(donor);
        let least = self.shard_count(recipient);
        if most < 2 || most - 2 < least {
            return None;
        }
        let mut i: usize = 0;
        proof {
            assert(self.shards@.take(0) =~= Seq::<ShardRecord>::empty());
            assert(self.shards@.take(0).filter(settled_at(donor)) =~= Seq::<ShardRecord>::empty());
        }
        while i < self.shards.len()
            invariant
                i <= self.shards.len(),
                self@ == old(self)@,
                self.shard_entity == old(self).shard_entity,
                self@.wf(),
                self.shards@.take(i as int).filter(settled_at(donor)).len() == 0,
                self@.is_most_loaded(donor),
                self@.is_least_loaded(recipient),
                self@.load(donor) >= self@.load(recipient) + 2,
                forall|d: NodeId| self@.is_most_loaded(d) ==> d == donor,
                forall|r: NodeId| self@.is_least_loaded(r) ==> r == recipient,
            decreases self.shards.len() - i,
        {
            let record = self.shards[i];
            proof {
                let seen = self.shards@.take(i as int);
                assert(self.shards@.take(i as int + 1) == seen.push(record));
                Seq::lemma_filter_push(seen, record, settled_at(donor));
            }
            if record.state == ShardState::Allocated(donor) {
                proof {
                    lemma_first_settled(self@, donor, i as int);
                    let k = self@.record_index(record.shard_id);
                    assert(self@.shards[i as int].shard_id == record.shard_id);
                    if k < i {
                        assert(self@.shards[k].shard_id != self@.shards[i as int].shard_id);
                    } else if i < k {
                        assert(self@.shards[i as int].shard_id != self@.shards[k].shard_id);
                    }
                }
                self.restore(
                    ShardRecord { state: ShardState::Migrating(donor, recipient), ..record },
                );
                return Some(Rebalance { shard_id: record.shard_id, donor, recipient });
            }
            i += 1;
        }
        proof {
            assert(self.shards@.take(i as int) == self.shards@);
        }
        None
    }
}

/// Putting a record in its place keeps the state well formed, and the
/// shard stands where the record says.
pub proof fn lemma_restored_wf(v: Allocation, record: ShardRecord)
    requires
        v.wf(),
    ensures
        v.restored(record).wf(),
        v.restored(record).has_record(record.shard_id),
        v.restored(record).state_of(record.shard_id) == record.state,
        v.restored(record).generation_of(record.shard_id) == record.generation,
{
    let after = v.restored(record);
    if v.has_record(record.shard_id) {
        let at = v.record_index(record.shard_id);
        assert forall|i: int, j: int| 0 <= i < j < after.shards.len() implies (
        #[trigger] after.shards[i]).shard_id != (#[trigger] after.shards[j]).shard_id by {
            assert(v.shards[i].shard_id != v.shards[j].shard_id);
        }
        assert(after.shards[at].shard_id == record.shard_id);
        let k = after.record_index(record.shard_id);
        if k < at {
            assert(after.shards[k].shard_id != after.shards[at].shard_id);
        } else if at < k {
            assert(after.shards[at].shard_id != after.shards[k].shard_id);
        }
    } else {
        let n = v.shards.len() as int;
        assert forall|i: int, j: int| 0 <= i < j < after.shards.len() implies (
        #[trigger] after.shards[i]).shard_id != (#[trigger] after.shards[j]).shard_id by {
            if j < n {
                assert(v.shards[i].shard_id != v.shards[j].shard_id);
            } else {
                assert(v.shards[i].shard_id != record.shard_id);
            }
        }
        assert(after.shards[n].shard_id == record.shard_id);
        let k = after.record_index(record.shard_id);
        if k < n {
            assert(after.shards[k].shard_id != after.shards[n].shard_id);
        }
    }
}

/// The first record that is allocated to `node` is the first of the shards
/// that run on it.
proof fn lemma_first_settled(v: Allocation, node: NodeId, i: int)
    requires
        0 <= i < v.shards.len(),
        v.shards.take(i).filter(settled_at(node)).len() == 0,
        v.shards[i].state == ShardState::Allocated(node),
    ensures
        v.shards.filter(settled_at(node)).len() > 0,
        v.shards.filter(settled_at(node)).first() == v.shards[i],
{
    let seen = v.shards.take(i);
    let rest = v.shards.skip(i);
    assert(v.shards == seen + rest);
    Seq::filter_distributes_over_add(seen, rest, settled_at(node));
    assert(seen.filter(settled_at(node)) =~= Seq::<ShardRecord>::empty());
    assert(v.shards.filter(settled_at(node)) =~= rest.filter(settled_at(node)));
    assert(rest == seq![v.shards[i]] + rest.skip(1));
    Seq::filter_distributes_over_add(seq![v.shards[i]], rest.skip(1), settled_at(node));
    reveal(Seq::filter);
    assert(seq![v.shards[i]].filter(settled_at(node)) =~= seq![v.shards[i]]) by {
        let one = seq![v.shards[i]];
        assert(one.drop_last() =~= Seq::<ShardRecord>::empty());
        assert(one.drop_last().filter(settled_at(node)) =~= Seq::<ShardRecord>::empty());
    }
}

/// There is one most loaded and one least loaded ready host at most.
pub proof fn lemma_extremes_are_unique(v: Allocation, donor: NodeId, recipient: NodeId)
    requires
        v.is_most_loaded(donor),
        v.is_least_loaded(recipient),
    ensures
        forall|d: NodeId| v.is_most_loaded(d) ==> d == donor,
        forall|r: NodeId| v.is_least_loaded(r) ==> r == recipient,
{
    assert forall|d: NodeId| v.is_most_loaded(d) implies d == donor by {
        assert(v.is_ready(d));
        assert(v.is_ready(donor));
        assert(v.heavier(d, donor));
        assert(v.heavier(donor, d));
    }
    assert forall|r: NodeId| v.is_least_loaded(r) implies r == recipient by {
        assert(v.is_ready(r));
        assert(v.is_ready(recipient));
        assert(v.lighter(r, recipient));
        assert(v.lighter(recipient, r));
    }
}

/// Losing a host keeps the state well formed, and no shard stands at the
/// host afterwards.
pub proof fn lemma_lost_wf(v: Allocation, node: NodeId)
    requires
        v.wf(),
    ensures
        v.lost(node).wf(),
        forall|shard: ShardId| v.lost(node).state_of(shard).spec_owner() != Some(node),
        v.lost(node).load(node) == 0,
{
    let after = v.lost(node);
    assert forall|i: int, j: int| 0 <= i < j < after.hosts.len() implies (
    #[trigger] after.hosts[i]).node_id != (#[trigger] after.hosts[j]).node_id by {
        assert(v.hosts[i].node_id != v.hosts[j].node_id);
    }
    assert forall|i: int, j: int| 0 <= i < j < after.shards.len() implies (
    #[trigger] after.shards[i]).shard_id != (#[trigger] after.shards[j]).shard_id by {
        assert(v.shards[i].shard_id != v.shards[j].shard_id);
    }
    assert forall|shard: ShardId| after.state_of(shard).spec_owner() != Some(node) by {
        if after.has_record(shard) {
            let k = after.record_index(shard);
            assert(after.shards[k] == released_by(node)(v.shards[k]));
        }
    }
    let owned = after.shards.filter(owned_by(node));
    if owned.len() > 0 {
        Seq::lemma_filter_pred(after.shards, owned_by(node), 0);
        assert(owned.contains(owned[0]));
        Seq::lemma_filter_contains_rev(after.shards, owned_by(node), owned[0]);
        let k = choose|k: int| 0 <= k < after.shards.len() && after.shards[k] == owned[0];
        assert(after.shards[k] == released_by(node)(v.shards[k]));
    }
}

/// A shard has one host at most: the records of a well-formed state name
/// each shard once, so two records for the same shard are one record, and
/// the shard stands in one place.
pub proof fn shard_has_one_host_at_most(v: Allocation, i: int, j: int)
    requires
        v.wf(),
        0 <= i < v.shards.len(),
        0 <= j < v.shards.len(),
        v.shards[i].shard_id == v.shards[j].shard_id,
    ensures
        i == j,
        v.shards[i].state == v.shards[j].state,
        v.host_of(v.shards[i].shard_id) == v.host_of(v.shards[j].shard_id),
{
    if i < j {
        assert(v.shards[i].shard_id != v.shards[j].shard_id);
    } else if j < i {
        assert(v.shards[j].shard_id != v.shards[i].shard_id);
    }
}

/// Every step of the coordinator keeps each shard with one host at most.
pub proof fn steps_keep_one_host(
    v: Allocation,
    shard: ShardId,
    node: NodeId,
    host: HostView,
    state: ShardState,
)
    requires
        v.wf(),
    ensures
        v.moved(shard, state).wf(),
        v.started(shard, node).wf(),
        v.start_failed(shard, node).wf(),
        v.stopped(shard, node).wf(),
        v.lost(node).wf(),
        v.added(host).wf(),
{
    lemma_lost_wf(v, node);
    lemma_restored_wf(v, ShardRecord { shard_id: shard, state, generation: v.generation_of(shard) });
    lemma_restored_wf(
        v,
        ShardRecord {
            shard_id: shard,
            state: ShardState::Allocated(node),
            generation: next_generation(v.generation_of(shard)),
        },
    );
    lemma_restored_wf(
        v,
        ShardRecord {
            shard_id: shard,
            state: ShardState::Unallocated,
            generation: v.generation_of(shard),
        },
    );
    match v.state_of(shard) {
        ShardState::Migrating(from, to) => {
            lemma_restored_wf(
                v,
                ShardRecord {
                    shard_id: shard,
                    state: ShardState::Allocating(to),
                    generation: v.generation_of(shard),
                },
            );
        },
        _ => {},
    }
    let a = v.added(host);
    assert forall|i: int, j: int| 0 <= i < j < a.hosts.len() implies (#[trigger] a.hosts[i]).node_id
        != (#[trigger] a.hosts[j]).node_id by {
        if v.has_host(host.node_id) {
            assert(v.hosts[i].node_id != v.hosts[j].node_id);
        } else if j < v.hosts.len() {
            assert(v.hosts[i].node_id != v.hosts[j].node_id);
        } else {
            assert(v.hosts[i].node_id != host.node_id);
        }
    }
}

/// What can happen to a coordinator.
pub enum CoordinatorStep {
    /// A host announced itself.
    HostAnnounced(HostView),
    /// A shard was set to be started on a host, or on its way to one.
    ShardMoved(ShardId, ShardState),
    /// A host acknowledged the start of a shard.
    ShardStarted(ShardId, NodeId),
    /// A host failed to start a shard.
    StartFailed(ShardId, NodeId),
    /// A host confirmed that it stopped a shard.
    ShardStopped(ShardId, NodeId),
    /// A host was lost.
    HostLost(NodeId),
}

impl Allocation {
    /// The state after one step.
    pub open spec fn after(self, step: CoordinatorStep) -> Allocation {
        match step {
            CoordinatorStep::HostAnnounced(host) => self.added(host),
            CoordinatorStep::ShardMoved(shard, state) => self.moved(shard, state),
            CoordinatorStep::ShardStarted(shard, node) => self.started(shard, node),
            CoordinatorStep::StartFailed(shard, node) => self.start_failed(shard, node),
            CoordinatorStep::ShardStopped(shard, node) => self.stopped(shard, node),
            CoordinatorStep::HostLost(node) => self.lost(node),
        }
    }

    /// The state after a run of steps, in order.
    pub open spec fn after_all(self, steps: Seq<CoordinatorStep>) -> Allocation
        decreases steps.len(),
    {
        if steps.len() == 0 {
            self
        } else {
            self.after_all(steps.drop_last()).after(steps.last())
        }
    }
}

/// At every instant a shard has one host at most: whatever happens to a
/// coordinator, in whatever order, its records name each shard once.
pub proof fn one_host_at_every_instant(v: Allocation, steps: Seq<CoordinatorStep>)
    requires
        v.wf(),
    ensures
        v.after_all(steps).wf(),
    decreases steps.len(),
{
    if steps.len() > 0 {
        one_host_at_every_instant(v, steps.drop_last());
        let before = v.after_all(steps.drop_last());
        match steps.last() {
            CoordinatorStep::HostAnnounced(host) => {
                steps_keep_one_host(before, 0, 0, host, ShardState::Unallocated);
            },
            CoordinatorStep::ShardMoved(shard, state) => {
                steps_keep_one_host(before, shard, 0, arbitrary(), state);
            },
            CoordinatorStep::ShardStarted(shard, node) => {
                steps_keep_one_host(before, shard, node, arbitrary(), ShardState::Unallocated);
            },
            CoordinatorStep::StartFailed(shard, node) => {
                steps_keep_one_host(before, shard, node, arbitrary(), ShardState::Unallocated);
            },
            CoordinatorStep::ShardStopped(shard, node) => {
                steps_keep_one_host(before, shard, node, arbitrary(), ShardState::Unallocated);
            },
            CoordinatorStep::HostLost(node) => {
                steps_keep_one_host(before, 0, node, arbitrary(), ShardState::Unallocated);
            },
        }
    }
}

/// What was persisted is read back with one record for each shard: the
/// records of a journal, whatever it holds, name each shard once.
pub proof fn journal_names_each_shard_once(journal: Seq<ShardRecord>)
    ensures
        (Allocation { hosts: Seq::empty(), shards: Seq::empty() }).restored_all(journal).wf(),
    decreases journal.len(),
{
    if journal.len() > 0 {
        journal_names_each_shard_once(journal.drop_last());
        lemma_restored_wf(
            (Allocation { hosts: Seq::empty(), shards: Seq::empty() }).restored_all(
                journal.drop_last(),
            ),
            journal.last(),
        );
    }
}

/// A shard that was started is allocated once its host has acknowledged
/// the start, and to that host.
pub proof fn start_leads_to_allocation(v: Allocation, shard: ShardId, node: NodeId)
    requires
        v.wf(),
    ensures
        v.moved(shard, ShardState::Allocating(node)).started(shard, node).state_of(shard)
            == ShardState::Allocated(node),
        v.moved(shard, ShardState::Allocating(node)).started(shard, node).host_of(shard) == Some(
            node,
        ),
{
    let starting = v.moved(shard, ShardState::Allocating(node));
    lemma_restored_wf(
        v,
        ShardRecord {
            shard_id: shard,
            state: ShardState::Allocating(node),
            generation: v.generation_of(shard),
        },
    );
    lemma_restored_wf(
        starting,
        ShardRecord {
            shard_id: shard,
            state: ShardState::Allocated(node),
            generation: next_generation(starting.generation_of(shard)),
        },
    );
}

} // verus!
