//! The membership of the cluster as one node sees it.
//!
//! Members are kept in the order in which they were admitted, and the record
//! of a known member is never replaced: the membership only grows until a
//! node is found terminated. Such a node leaves the members and is remembered
//! together with the start time it had announced; it is admitted again only
//! when it announces a later start, which shows that the process was started
//! anew.
use crate::actor::{Actor, ActorId};
use crate::remote::cluster::node::{node_views, RemoteNode, Timestamp};
use crate::table::Table;
use crate::NodeId;
use std::collections::HashMap;
use vstd::prelude::*;
use vstd::string::StringExecFns;

verus! {

broadcast use {vstd::seq_lib::group_seq_properties, vstd::seq::group_seq_axioms};

/// The membership as a mathematical value: the members in order of
/// admission, and for each terminated node the start time it had.
pub struct Membership {
    pub members: Seq<RemoteNode>,
    pub terminated: Map<NodeId, Option<Timestamp>>,
}

/// Whether a member has the identifier `id`.
pub open spec fn has_member(members: Seq<RemoteNode>, id: NodeId) -> bool {
    exists|i: int| 0 <= i < members.len() && #[trigger] members[i].id == id
}

/// Where the member named `id` stands among the members.
pub open spec fn index_of(members: Seq<RemoteNode>, id: NodeId) -> int {
    choose|i: int| 0 <= i < members.len() && #[trigger] members[i].id == id
}

/// Whether an announced start time shows a process started after the one
/// that was recorded as terminated.
pub open spec fn spec_restarted(announced: Option<Timestamp>, recorded: Option<Timestamp>) -> bool {
    match (announced, recorded) {
        (Some(a), Some(r)) => a.spec_is_after(r),
        (Some(_), None) => true,
        (None, _) => false,
    }
}

/// Whether an announced start time shows a process started after the one
/// that was recorded as terminated.
#[verifier::when_used_as_spec(spec_restarted)]
pub fn restarted(announced: Option<Timestamp>, recorded: Option<Timestamp>) -> (r: bool)
    ensures
        r == spec_restarted(announced, recorded),
{
    match announced {
        Some(a) => match recorded {
            Some(r) => a.is_after(r),
            None => true,
        },
        None => false,
    }
}

impl Membership {
    /// No two members share an identifier, and no member is recorded as
    /// terminated.
    pub open spec fn wf(self) -> bool {
        &&& forall|i: int, j: int|
            0 <= i < j < self.members.len() ==> #[trigger] self.members[i].id
                != #[trigger] self.members[j].id
        &&& forall|i: int|
            0 <= i < self.members.len() ==> !self.terminated.contains_key(
                #[trigger] self.members[i].id,
            )
    }

    /// Whether `node` may join: it was never found terminated, or it
    /// announces a later start than the terminated process had.
    pub open spec fn admits(self, node: RemoteNode) -> bool {
        self.terminated.contains_key(node.id) ==> spec_restarted(
            node.node_started_at,
            self.terminated[node.id],
        )
    }

    /// Whether `node` would become a new member: it may join and is not one
    /// yet.
    pub open spec fn adds(self, node: RemoteNode) -> bool {
        self.admits(node) && !has_member(self.members, node.id)
    }

    /// The membership after `node` asked to join: a new member is added at
    /// the end and is no longer remembered as terminated; a known member or
    /// a node that is turned away changes nothing.
    pub open spec fn registered(self, node: RemoteNode) -> Membership {
        if self.adds(node) {
            Membership {
                members: self.members.push(node),
                terminated: self.terminated.remove(node.id),
            }
        } else {
            self
        }
    }

    /// The membership after each of `nodes` asked to join, in order.
    pub open spec fn registered_all(self, nodes: Seq<RemoteNode>) -> Membership
        decreases nodes.len(),
    {
        if nodes.len() == 0 {
            self
        } else {
            self.registered(nodes.first()).registered_all(nodes.drop_first())
        }
    }

    /// The start time to remember when `id` is found terminated: that of the
    /// member, else what was remembered before, else none.
    pub open spec fn last_start(self, id: NodeId) -> Option<Timestamp> {
        if has_member(self.members, id) {
            self.members[index_of(self.members, id)].node_started_at
        } else if self.terminated.contains_key(id) {
            self.terminated[id]
        } else {
            None
        }
    }

    /// The membership after `id` was found terminated.
    pub open spec fn terminated(self, id: NodeId) -> Membership {
        Membership {
            members: if has_member(self.members, id) {
                self.members.remove(index_of(self.members, id))
            } else {
                self.members
            },
            terminated: self.terminated.insert(id, self.last_start(id)),
        }
    }
}

/// The node registry of one node.
pub struct RemoteRegistry {
    nodes: Vec<RemoteNode>,
    terminated: HashMap<NodeId, Option<Timestamp>>,
    actors: Table<NodeId>,
}

impl Actor for RemoteRegistry {
    open spec fn type_tag() -> Seq<char> {
        "RemoteRegistry"@
    }

    fn actor_type() -> (name: String) {
        String::from_str("RemoteRegistry")
    }
}

impl View for RemoteRegistry {
    type V = Membership;

    closed spec fn view(&self) -> Membership {
        Membership { members: self.nodes@, terminated: self.terminated@ }
    }
}

impl RemoteRegistry {
    /// The node of each actor that has been announced to the cluster.
    pub closed spec fn locations(&self) -> Map<Seq<char>, NodeId> {
        self.actors.map()
    }

    /// A registry without members.
    pub fn new() -> (registry: RemoteRegistry)
        ensures
            registry@.members == Seq::<RemoteNode>::empty(),
            registry@.terminated == Map::<NodeId, Option<Timestamp>>::empty(),
            registry@.wf(),
            registry.locations() == Map::<Seq<char>, NodeId>::empty(),
    {
        RemoteRegistry { nodes: Vec::new(), terminated: HashMap::new(), actors: Table::new() }
    }

    /// Notes that the actor `actor_id` lives on `node_id`.
    pub fn register_actor(&mut self, actor_id: ActorId, node_id: NodeId)
        ensures
            final(self).locations() == old(self).locations().insert(actor_id@, node_id),
            final(self)@ == old(self)@,
    {
        self.actors.insert(actor_id, node_id);
    }

    /// The node on which the actor `actor_id` lives, as far as is known.
    pub fn locate_actor_node(&self, actor_id: &ActorId) -> (node_id: Option<NodeId>)
        ensures
            node_id == if self.locations().contains_key(actor_id@) {
                Some(self.locations()[actor_id@])
            } else {
                None
            },
    {
        match self.actors.get(actor_id.as_str()) {
            Some(node_id) => Some(*node_id),
            None => None,
        }
    }

    /// Where the member named `id` stands, if there is one.
    fn find(&self, id: NodeId) -> (at: Option<usize>)
        requires
            self@.wf(),
        ensures
            at.is_some() == has_member(self@.members, id),
            at matches Some(i) ==> i == index_of(self@.members, id) && i < self@.members.len(),
    {
        let mut i: usize = 0;
        while i < self.nodes.len()
            invariant
                i <= self.nodes.len(),
                self@.wf(),
                forall|j: int| 0 <= j < i ==> self.nodes@[j].id != id,
            decreases self.nodes.len() - i,
        {
            if self.nodes[i].id == id {
                proof {
                    let k = index_of(self@.members, id);
                    assert(self@.members[i as int].id == id);
                    assert(k == i) by {
                        if k < i {
                            assert(self@.members[k].id != self@.members[i as int].id);
                        } else if i < k {
                            assert(self@.members[i as int].id != self@.members[k].id);
                        }
                    }
                }
                return Some(i);
            }
            i += 1;
        }
        None
    }

    /// Whether `id` is a member.
    pub fn contains(&self, id: NodeId) -> (found: bool)
        requires
            self@.wf(),
        ensures
            found == has_member(self@.members, id),
    {
        self.find(id).is_some()
    }

    /// Whether `id` was found terminated and has not joined again since.
    pub fn is_terminated(&self, id: NodeId) -> (found: bool)
        ensures
            found == self@.terminated.contains_key(id),
    {
        self.terminated.contains_key(&id)
    }

    /// Lets `node` ask to join; says whether it became a new member.
    pub fn register_node(&mut self, node: RemoteNode) -> (added: bool)
        requires
            old(self)@.wf(),
        ensures
            added == old(self)@.adds(node),
            final(self)@ == old(self)@.registered(node),
            final(self)@.wf(),
            final(self).locations() == old(self).locations(),
    {
        let blocked = match self.terminated.get(&node.id) {
            Some(recorded) => !restarted(node.node_started_at, *recorded),
            None => false,
        };
        if blocked || self.contains(node.id) {
            return false;
        }
        proof {
            lemma_registered_wf(self@, node);
        }
        self.terminated.remove(&node.id);
        self.nodes.push(node);
        true
    }

    /// Lets each of `nodes` ask to join, in order.
    pub fn register_nodes(&mut self, nodes: Vec<RemoteNode>)
        requires
            old(self)@.wf(),
        ensures
            final(self)@ == old(self)@.registered_all(nodes@),
            final(self)@.wf(),
            final(self).locations() == old(self).locations(),
    {
        self.register_all(&nodes)
    }

    /// Lets each of `nodes` ask to join, in order, and leaves the list
    /// with the caller.
    pub fn register_all(&mut self, nodes: &Vec<RemoteNode>)
        requires
            old(self)@.wf(),
        ensures
            final(self)@ == old(self)@.registered_all(nodes@),
            final(self)@.wf(),
            final(self).locations() == old(self).locations(),
    {
        let ghost start = self@;
        let mut i: usize = 0;
        let n = nodes.len();
        while i < n
            invariant
                i <= n,
                n == nodes@.len(),
                self@.wf(),
                self.locations() == old(self).locations(),
                self@.registered_all(nodes@.skip(i as int)) == start.registered_all(nodes@),
            decreases n - i,
        {
            let node = nodes[i].clone();
            proof {
                assert(nodes@.skip(i as int).first() == nodes@[i as int]);
                assert(nodes@.skip(i as int).drop_first() =~= nodes@.skip(i as int + 1));
            }
            self.register_node(node);
            i += 1;
        }
        proof {
            assert(nodes@.skip(n as int).len() == 0);
        }
    }

    /// The members, in order of admission.
    pub fn get_nodes(&self) -> (nodes: Vec<RemoteNode>)
        ensures
            nodes@ == self@.members,
    {
        let mut nodes: Vec<RemoteNode> = Vec::new();
        let mut i: usize = 0;
        while i < self.nodes.len()
            invariant
                i <= self.nodes.len(),
                nodes@ == self.nodes@.take(i as int),
            decreases self.nodes.len() - i,
        {
            nodes.push(self.nodes[i].clone());
            proof {
                assert(self.nodes@.take(i as int + 1) == self.nodes@.take(i as int).push(
                    self.nodes@[i as int],
                ));
            }
            i += 1;
        }
        proof {
            assert(self.nodes@.take(i as int) == self.nodes@);
        }
        nodes
    }

    /// Records that `id` was found terminated: it leaves the members, and
    /// the start time it had is remembered.
    pub fn terminate(&mut self, id: NodeId)
        requires
            old(self)@.wf(),
        ensures
            final(self)@ == old(self)@.terminated(id),
            final(self)@.wf(),
            final(self).locations() == old(self).locations(),
    {
        proof {
            lemma_terminated_wf(self@, id);
        }
        let recorded = match self.find(id) {
            Some(i) => {
                let started_at = self.nodes[i].node_started_at;
                self.nodes.remove(i);
                started_at
            },
            None => match self.terminated.get(&id) {
                Some(earlier) => *earlier,
                None => None,
            },
        };
        self.terminated.insert(id, recorded);
    }
}

/// Admission keeps the membership well formed.
pub proof fn lemma_registered_wf(m: Membership, node: RemoteNode)
    requires
        m.wf(),
    ensures
        m.registered(node).wf(),
{
    if m.adds(node) {
        let after = m.registered(node);
        assert forall|i: int, j: int| 0 <= i < j < after.members.len() implies #[trigger]
            after.members[i].id != #[trigger] after.members[j].id by {
            if j < m.members.len() {
                assert(m.members[i].id != m.members[j].id);
            } else {
                assert(m.members[i].id != node.id);
            }
        }
        assert forall|i: int| 0 <= i < after.members.len() implies !after.terminated.contains_key(
            #[trigger] after.members[i].id,
        ) by {
            if i < m.members.len() {
                assert(!m.terminated.contains_key(m.members[i].id));
            }
        }
    }
}

/// Admitting a list of nodes keeps the membership well formed.
pub proof fn lemma_registered_all_wf(m: Membership, nodes: Seq<RemoteNode>)
    requires
        m.wf(),
    ensures
        m.registered_all(nodes).wf(),
    decreases nodes.len(),
{
    if nodes.len() > 0 {
        lemma_registered_wf(m, nodes.first());
        lemma_registered_all_wf(m.registered(nodes.first()), nodes.drop_first());
    }
}

/// The membership is append-only: whatever asks to join, the members that
/// were there stay where they were, with the records they had.
pub proof fn membership_only_grows(m: Membership, nodes: Seq<RemoteNode>)
    ensures
        m.members.is_prefix_of(m.registered_all(nodes).members),
        forall|id: NodeId|
            has_member(m.members, id) ==> has_member(m.registered_all(nodes).members, id),
    decreases nodes.len(),
{
    if nodes.len() > 0 {
        let next = m.registered(nodes.first());
        membership_only_grows(next, nodes.drop_first());
        let last = m.registered_all(nodes);
        assert(m.members.is_prefix_of(next.members));
        assert(m.members.is_prefix_of(last.members));
    }
    let last = m.registered_all(nodes);
    assert forall|id: NodeId| has_member(m.members, id) implies has_member(last.members, id) by {
        let i = index_of(m.members, id);
        assert(last.members[i] == m.members[i]);
    }
}

/// While a node is remembered as terminated, it either stays remembered with
/// the same start time or has become a member again.
proof fn lemma_record_kept(m: Membership, id: NodeId, nodes: Seq<RemoteNode>)
    requires
        m.wf(),
        m.terminated.contains_key(id),
    ensures
        has_member(m.registered_all(nodes).members, id) || (m.registered_all(
            nodes,
        ).terminated.contains_key(id) && m.registered_all(nodes).terminated[id]
            == m.terminated[id]),
    decreases nodes.len(),
{
    if nodes.len() > 0 {
        let first = nodes.first();
        let next = m.registered(first);
        lemma_registered_wf(m, first);
        if m.adds(first) && first.id == id {
            assert(next.members[m.members.len() as int].id == id);
            membership_only_grows(next, nodes.drop_first());
        } else {
            lemma_record_kept(next, id, nodes.drop_first());
        }
    }
}

/// A node, once terminated, is not admitted again without a new start time:
/// however many nodes ask to join afterwards, as long as none of those named
/// `id` announces a later start than the terminated one had, `id` stays out.
pub proof fn terminated_node_is_not_readmitted(m: Membership, id: NodeId, nodes: Seq<RemoteNode>)
    requires
        m.wf(),
        forall|i: int|
            0 <= i < nodes.len() && (#[trigger] nodes[i]).id == id ==> !spec_restarted(
                nodes[i].node_started_at,
                m.last_start(id),
            ),
    ensures
        !has_member(m.terminated(id).registered_all(nodes).members, id),
        m.terminated(id).registered_all(nodes).terminated.contains_key(id),
{
    lemma_terminated_wf(m, id);
    lemma_stays_out(m.terminated(id), id, nodes);
}

/// A remembered node stays out while no candidate shows a later start.
proof fn lemma_stays_out(m: Membership, id: NodeId, nodes: Seq<RemoteNode>)
    requires
        m.wf(),
        m.terminated.contains_key(id),
        !has_member(m.members, id),
        forall|i: int|
            0 <= i < nodes.len() && (#[trigger] nodes[i]).id == id ==> !spec_restarted(
                nodes[i].node_started_at,
                m.terminated[id],
            ),
    ensures
        !has_member(m.registered_all(nodes).members, id),
        m.registered_all(nodes).terminated.contains_key(id),
        m.registered_all(nodes).terminated[id] == m.terminated[id],
    decreases nodes.len(),
{
    if nodes.len() > 0 {
        let first = nodes.first();
        let rest = nodes.drop_first();
        let next = m.registered(first);
        lemma_registered_wf(m, first);
        assert(first == nodes[0]);
        assert forall|i: int| 0 <= i < rest.len() && (#[trigger] rest[i]).id == id implies
            !spec_restarted(rest[i].node_started_at, next.terminated[id]) by {
            assert(rest[i] == nodes[i + 1]);
        }
        assert(!has_member(next.members, id)) by {
            if has_member(next.members, id) {
                let k = index_of(next.members, id);
                if k < m.members.len() {
                    assert(m.members[k].id == id);
                }
            }
        }
        lemma_stays_out(next, id, rest);
    }
}

/// After a list of nodes asked to join, each of them is either a member or
/// turned away for good.
proof fn lemma_settled(m: Membership, nodes: Seq<RemoteNode>, i: int)
    requires
        m.wf(),
        0 <= i < nodes.len(),
    ensures
        !m.registered_all(nodes).adds(nodes[i]),
    decreases nodes.len(),
{
    let first = nodes.first();
    let rest = nodes.drop_first();
    let next = m.registered(first);
    let last = m.registered_all(nodes);
    lemma_registered_wf(m, first);
    if i == 0 {
        if m.adds(first) {
            assert(next.members[m.members.len() as int].id == first.id);
            membership_only_grows(next, rest);
        } else if has_member(m.members, first.id) {
            membership_only_grows(next, rest);
        } else {
            lemma_record_kept(next, first.id, rest);
        }
    } else {
        assert(rest[i - 1] == nodes[i]);
        lemma_settled(next, rest, i - 1);
    }
}

/// Nodes that change nothing one by one change nothing together.
proof fn lemma_absorbed(m: Membership, nodes: Seq<RemoteNode>)
    requires
        forall|i: int| 0 <= i < nodes.len() ==> !m.adds(#[trigger] nodes[i]),
    ensures
        m.registered_all(nodes) == m,
    decreases nodes.len(),
{
    if nodes.len() > 0 {
        assert(!m.adds(nodes[0]));
        let rest = nodes.drop_first();
        assert forall|i: int| 0 <= i < rest.len() implies !m.adds(#[trigger] rest[i]) by {
            assert(rest[i] == nodes[i + 1]);
        }
        lemma_absorbed(m, rest);
    }
}

/// Letting the same nodes ask to join a second time changes nothing.
pub proof fn registration_is_idempotent(m: Membership, nodes: Seq<RemoteNode>)
    requires
        m.wf(),
    ensures
        m.registered_all(nodes).registered_all(nodes) == m.registered_all(nodes),
{
    same_nodes_change_nothing(m, nodes, nodes);
}

/// Nodes that are named a second time change nothing, also where they are
/// written down anew: once the nodes `first` have asked to join, nodes that
/// say the same of themselves are either members or turned away for good.
pub proof fn same_nodes_change_nothing(m: Membership, first: Seq<RemoteNode>, second: Seq<RemoteNode>)
    requires
        m.wf(),
        node_views(first) == node_views(second),
    ensures
        m.registered_all(first).registered_all(second) == m.registered_all(first),
{
    let once = m.registered_all(first);
    assert(node_views(first).len() == first.len());
    assert(node_views(second).len() == second.len());
    assert forall|i: int| 0 <= i < second.len() implies !once.adds(#[trigger] second[i]) by {
        lemma_settled(m, first, i);
        assert(node_views(first)[i] == first[i]@);
        assert(node_views(second)[i] == second[i]@);
        assert(first[i].id == second[i].id);
        assert(first[i].node_started_at == second[i].node_started_at);
    }
    lemma_absorbed(once, second);
}

/// Removing a node keeps the membership well formed, and the node is out.
pub proof fn lemma_terminated_wf(m: Membership, id: NodeId)
    requires
        m.wf(),
    ensures
        m.terminated(id).wf(),
        !has_member(m.terminated(id).members, id),
        m.terminated(id).terminated.contains_key(id),
{
    let after = m.terminated(id);
    if has_member(m.members, id) {
        let k = index_of(m.members, id);
        assert forall|i: int| 0 <= i < after.members.len() implies (#[trigger] after.members[i])
            == m.members[if i < k {
            i
        } else {
            i + 1
        }] by {}
        assert forall|i: int, j: int| 0 <= i < j < after.members.len() implies #[trigger]
            after.members[i].id != #[trigger] after.members[j].id by {
            let a = if i < k { i } else { i + 1 };
            let b = if j < k { j } else { j + 1 };
            assert(m.members[a].id != m.members[b].id);
        }
        assert forall|i: int| 0 <= i < after.members.len() implies #[trigger] after.members[i].id
            != id by {
            let a = if i < k { i } else { i + 1 };
            if a < k {
                assert(m.members[a].id != m.members[k].id);
            } else {
                assert(m.members[k].id != m.members[a].id);
            }
        }
        assert forall|i: int| 0 <= i < after.members.len() implies !after.terminated.contains_key(
            #[trigger] after.members[i].id,
        ) by {
            let a = if i < k { i } else { i + 1 };
            assert(!m.terminated.contains_key(m.members[a].id));
        }
    } else {
        assert forall|i: int| 0 <= i < after.members.len() implies !after.terminated.contains_key(
            #[trigger] after.members[i].id,
        ) by {
            assert(!m.terminated.contains_key(m.members[i].id));
        }
    }
}

} // verus!
