//! Discovery: finding the members of a cluster from a seed.
//!
//! Discovery starts from the address of one node or from the peers that a
//! node has named. Every address that is new is contacted once. A node that
//! answers names its own peers, and those that are new are contacted in
//! turn. Discovery is complete when every address that was contacted has
//! either answered or been given up.
use crate::actor::Actor;
use crate::remote::cluster::node::RemoteNode;
use crate::table::Table;
use vstd::prelude::*;
use vstd::string::StringExecFns;

verus! {

/// Where discovery starts.
pub enum Seed {
    /// The address of one node to ask.
    Addr(String),
    /// Nodes that a peer has named.
    Nodes(Vec<RemoteNode>),
}

/// A request to discover the cluster from a seed. `on_discovery_complete`
/// is the channel to fire once no new peers remain.
pub struct Discover<S> {
    pub seed: Seed,
    pub on_discovery_complete: Option<S>,
}

/// What discovery asks for next.
pub struct DiscoveryStep {
    /// The addresses to contact now.
    pub connect: Vec<String>,
    /// Whether nothing is being contacted any more, so that those who wait
    /// for discovery can be told.
    pub complete: bool,
}

/// The state of discovery as a mathematical value.
pub struct DiscoveryState {
    /// The addresses that are being contacted.
    pub pending: Seq<Seq<char>>,
    /// The addresses that were contacted, and whether they answered.
    pub settled: Map<Seq<char>, bool>,
}

/// The texts of a list of strings.
pub open spec fn texts(list: Seq<String>) -> Seq<Seq<char>> {
    list.map_values(|s: String| s@)
}

/// The addresses of a list of nodes.
pub open spec fn addrs_of(nodes: Seq<RemoteNode>) -> Seq<Seq<char>> {
    nodes.map_values(|n: RemoteNode| n.addr@)
}

/// The addresses that a seed names.
pub open spec fn seed_addrs(seed: Seed) -> Seq<Seq<char>> {
    match seed {
        Seed::Addr(addr) => seq![addr@],
        Seed::Nodes(nodes) => addrs_of(nodes@),
    }
}

impl DiscoveryState {
    /// No address is contacted twice at a time, and none that was settled
    /// is contacted again.
    pub open spec fn wf(self) -> bool {
        &&& self.pending.no_duplicates()
        &&& forall|i: int|
            0 <= i < self.pending.len() ==> !self.settled.contains_key(#[trigger] self.pending[i])
    }

    /// Whether an address has been heard of.
    pub open spec fn knows(self, addr: Seq<char>) -> bool {
        self.pending.contains(addr) || self.settled.contains_key(addr)
    }

    /// The addresses among `addrs` that are new, each once, in order.
    pub open spec fn fresh(self, addrs: Seq<Seq<char>>) -> Seq<Seq<char>>
        decreases addrs.len(),
    {
        if addrs.len() == 0 {
            Seq::empty()
        } else {
            let earlier = self.fresh(addrs.drop_last());
            if self.knows(addrs.last()) || earlier.contains(addrs.last()) {
                earlier
            } else {
                earlier.push(addrs.last())
            }
        }
    }

    /// The state after `addrs` were named: the new ones are being
    /// contacted.
    pub open spec fn queued(self, addrs: Seq<Seq<char>>) -> DiscoveryState {
        DiscoveryState { pending: self.pending + self.fresh(addrs), settled: self.settled }
    }

    /// The state after an address has answered or been given up.
    pub open spec fn settled_with(self, addr: Seq<char>, connected: bool) -> DiscoveryState {
        DiscoveryState {
            pending: if self.pending.contains(addr) {
                self.pending.remove(self.pending.index_of(addr))
            } else {
                self.pending
            },
            settled: self.settled.insert(addr, connected),
        }
    }
}

/// The actor that runs discovery.
pub struct NodeDiscovery {
    pending: Vec<String>,
    settled: Table<bool>,
}

impl Actor for NodeDiscovery {
    open spec fn type_tag() -> Seq<char> {
        "NodeDiscovery"@
    }

    fn actor_type() -> (name: String) {
        String::from_str("NodeDiscovery")
    }
}

impl View for NodeDiscovery {
    type V = DiscoveryState;

    closed spec fn view(&self) -> DiscoveryState {
        DiscoveryState { pending: texts(self.pending@), settled: self.settled.map() }
    }
}

impl NodeDiscovery {
    /// Discovery that has heard of no address.
    pub fn new() -> (discovery: NodeDiscovery)
        ensures
            discovery@.pending == Seq::<Seq<char>>::empty(),
            discovery@.settled == Map::<Seq<char>, bool>::empty(),
            discovery@.wf(),
    {
        let discovery = NodeDiscovery { pending: Vec::new(), settled: Table::new() };
        assert(discovery@.pending =~= Seq::<Seq<char>>::empty());
        discovery
    }

    /// Where `addr` stands among the addresses that are being contacted.
    fn find_pending(&self, addr: &String) -> (at: Option<usize>)
        ensures
            at.is_some() == self@.pending.contains(addr@),
            at matches Some(i) ==> i < self@.pending.len() && self@.pending[i as int] == addr@,
    {
        let mut i: usize = 0;
        while i < self.pending.len()
            invariant
                i <= self.pending.len(),
                self@.pending.len() == self.pending@.len(),
                forall|j: int| 0 <= j < i ==> self@.pending[j] != addr@,
            decreases self.pending.len() - i,
        {
            assert(self@.pending[i as int] == self.pending@[i as int]@);
            if self.pending[i] == *addr {
                return Some(i);
            }
            i += 1;
        }
        None
    }

    /// Whether an address is being contacted or was contacted.
    pub fn knows(&self, addr: &String) -> (known: bool)
        ensures
            known == self@.knows(addr@),
    {
        self.find_pending(addr).is_some() || self.settled.contains_key(addr.as_str())
    }

    /// Whether nothing is being contacted.
    pub fn is_complete(&self) -> (complete: bool)
        ensures
            complete == (self@.pending.len() == 0),
    {
        self.pending.len() == 0
    }

    /// Names addresses to discovery; the new ones are handed back and
    /// count as being contacted.
    fn enqueue(&mut self, addrs: &Vec<String>) -> (connect: Vec<String>)
        requires
            old(self)@.wf(),
        ensures
            texts(connect@) == old(self)@.fresh(texts(addrs@)),
            final(self)@ == old(self)@.queued(texts(addrs@)),
            final(self)@.wf(),
    {
        let ghost before = self@;
        let ghost named = texts(addrs@);
        let mut connect: Vec<String> = Vec::new();
        let mut i: usize = 0;
        proof {
            assert(named.take(0) =~= Seq::<Seq<char>>::empty());
            assert(texts(connect@) =~= before.fresh(named.take(0)));
            assert(self@.pending =~= before.pending + texts(connect@));
        }
        while i < addrs.len()
            invariant
                i <= addrs.len(),
                named == texts(addrs@),
                before.wf(),
                self@.wf(),
                self@.settled == before.settled,
                texts(connect@) == before.fresh(named.take(i as int)),
                self@.pending == before.pending + texts(connect@),
            decreases addrs.len() - i,
        {
            let addr = addrs[i].clone();
            proof {
                assert(named.take(i as int + 1).drop_last() == named.take(i as int));
                assert(named.take(i as int + 1).last() == addr@);
                let earlier = texts(connect@);
                assert(self@.pending.contains(addr@) == (before.pending.contains(addr@)
                    || earlier.contains(addr@))) by {
                    if self@.pending.contains(addr@) {
                        let k = self@.pending.index_of(addr@);
                        if k < before.pending.len() {
                            assert(before.pending[k] == addr@);
                        } else {
                            assert(earlier[k - before.pending.len()] == addr@);
                        }
                    }
                    if before.pending.contains(addr@) {
                        let k = before.pending.index_of(addr@);
                        assert(self@.pending[k] == addr@);
                    }
                    if earlier.contains(addr@) {
                        let k = earlier.index_of(addr@);
                        assert(self@.pending[before.pending.len() + k] == addr@);
                    }
                }
            }
            if !self.knows(&addr) {
                let ghost pending = self@.pending;
                let ghost chosen = texts(connect@);
                self.pending.push(addr.clone());
                connect.push(addr);
                proof {
                    assert(texts(connect@) =~= chosen.push(addr@));
                    assert(self@.pending =~= pending.push(addr@));
                    assert(self@.pending =~= before.pending + texts(connect@));
                    assert(self@.pending.no_duplicates()) by {
                        assert forall|a: int, b: int|
                            0 <= a < self@.pending.len() && 0 <= b < self@.pending.len() && a
                                != b implies self@.pending[a] != self@.pending[b] by {
                            if a < pending.len() && b < pending.len() {
                                assert(pending[a] != pending[b]);
                            } else if a < pending.len() {
                                assert(pending.contains(pending[a]));
                            } else if b < pending.len() {
                                assert(pending.contains(pending[b]));
                            }
                        }
                    }
                    assert forall|k: int| 0 <= k < self@.pending.len() implies
                        !self@.settled.contains_key(#[trigger] self@.pending[k]) by {
                        if k < pending.len() {
                            assert(!before.settled.contains_key(pending[k]));
                        }
                    }
                }
            }
            i += 1;
        }
        proof {
            assert(named.take(i as int) == named);
        }
        connect
    }

    /// Starts discovery from a seed: the addresses of the seed that are new
    /// are to be contacted.
    pub fn discover(&mut self, seed: &Seed) -> (step: DiscoveryStep)
        requires
            old(self)@.wf(),
        ensures
            texts(step.connect@) == old(self)@.fresh(seed_addrs(*seed)),
            final(self)@ == old(self)@.queued(seed_addrs(*seed)),
            final(self)@.wf(),
            step.complete == (final(self)@.pending.len() == 0),
    {
        let addrs = match seed {
            Seed::Addr(addr) => {
                let mut addrs: Vec<String> = Vec::new();
                addrs.push(addr.clone());
                assert(texts(addrs@) =~= seq![addr@]);
                addrs
            },
            Seed::Nodes(nodes) => node_addrs(nodes),
        };
        let connect = self.enqueue(&addrs);
        DiscoveryStep { connect, complete: self.is_complete() }
    }

    /// Notes that an address has answered, and names its peers, or that it
    /// was given up. The peers that are new are to be contacted in turn.
    pub fn resolved(&mut self, addr: &String, connected: bool, peers: &Vec<RemoteNode>) -> (step:
        DiscoveryStep)
        requires
            old(self)@.wf(),
        ensures
            texts(step.connect@) == old(self)@.settled_with(addr@, connected).fresh(
                addrs_of(peers@),
            ),
            final(self)@ == old(self)@.settled_with(addr@, connected).queued(addrs_of(peers@)),
            final(self)@.wf(),
            step.complete == (final(self)@.pending.len() == 0),
    {
        let ghost before = self@;
        match self.find_pending(addr) {
            Some(i) => {
                self.pending.remove(i);
                proof {
                    let at = i as int;
                    assert(before.pending.no_duplicates());
                    assert(before.pending.index_of(addr@) == at) by {
                        let k = before.pending.index_of(addr@);
                        assert(before.pending[k] == addr@);
                    }
                    assert(self@.pending =~= before.pending.remove(at));
                }
            },
            None => {},
        }
        self.settled.insert(addr.clone(), connected);
        proof {
            let mid = before.settled_with(addr@, connected);
            assert(self@ == mid);
            assert(mid.wf()) by {
                if before.pending.contains(addr@) {
                    let at = before.pending.index_of(addr@);
                    assert forall|a: int, b: int|
                        0 <= a < mid.pending.len() && 0 <= b < mid.pending.len() && a
                            != b implies mid.pending[a] != mid.pending[b] by {
                        let a0 = if a < at { a } else { a + 1 };
                        let b0 = if b < at { b } else { b + 1 };
                        assert(before.pending[a0] != before.pending[b0]);
                    }
                    assert forall|k: int| 0 <= k < mid.pending.len() implies
                        !mid.settled.contains_key(#[trigger] mid.pending[k]) by {
                        let k0 = if k < at { k } else { k + 1 };
                        assert(before.pending[k0] != before.pending[at]);
                        assert(!before.settled.contains_key(before.pending[k0]));
                    }
                } else {
                    assert forall|k: int| 0 <= k < mid.pending.len() implies
                        !mid.settled.contains_key(#[trigger] mid.pending[k]) by {
                        assert(before.pending.contains(before.pending[k]));
                        assert(!before.settled.contains_key(before.pending[k]));
                    }
                }
            }
        }
        let addrs = node_addrs(peers);
        let connect = self.enqueue(&addrs);
        DiscoveryStep { connect, complete: self.is_complete() }
    }
}

/// The addresses of nodes.
pub fn node_addrs(nodes: &Vec<RemoteNode>) -> (addrs: Vec<String>)
    ensures
        texts(addrs@) == addrs_of(nodes@),
{
    let mut addrs: Vec<String> = Vec::new();
    let mut i: usize = 0;
    while i < nodes.len()
        invariant
            i <= nodes.len(),
            addrs@.len() == i,
            forall|j: int| 0 <= j < i ==> (#[trigger] addrs@[j])@ == nodes@[j].addr@,
        decreases nodes.len() - i,
    {
        addrs.push(nodes[i].addr.clone());
        i += 1;
    }
    proof {
        assert(texts(addrs@) =~= addrs_of(nodes@));
    }
    addrs
}

/// No address is contacted twice: what discovery asks to contact was not
/// heard of before, and is heard of afterwards.
pub proof fn addresses_are_contacted_once(state: DiscoveryState, addrs: Seq<Seq<char>>, k: int)
    requires
        0 <= k < state.fresh(addrs).len(),
    ensures
        !state.knows(state.fresh(addrs)[k]),
        state.queued(addrs).knows(state.fresh(addrs)[k]),
        state.queued(addrs).fresh(addrs).len() == 0,
    decreases addrs.len(),
{
    lemma_fresh_is_new(state, addrs, k);
    let after = state.queued(addrs);
    assert(after.pending[state.pending.len() + k] == state.fresh(addrs)[k]);
    lemma_named_are_known(state, addrs);
    lemma_known_are_not_fresh(after, addrs);
}

/// What is new was not heard of.
proof fn lemma_fresh_is_new(state: DiscoveryState, addrs: Seq<Seq<char>>, k: int)
    requires
        0 <= k < state.fresh(addrs).len(),
    ensures
        !state.knows(state.fresh(addrs)[k]),
        addrs.contains(state.fresh(addrs)[k]),
    decreases addrs.len(),
{
    if addrs.len() > 0 {
        let earlier = state.fresh(addrs.drop_last());
        if k < earlier.len() {
            lemma_fresh_is_new(state, addrs.drop_last(), k);
            let found = addrs.drop_last().index_of(earlier[k]);
            assert(addrs[found] == earlier[k]);
        } else {
            assert(addrs[addrs.len() - 1] == addrs.last());
        }
    }
}

/// Every address that was named is heard of afterwards.
proof fn lemma_named_are_known(state: DiscoveryState, addrs: Seq<Seq<char>>)
    ensures
        forall|i: int| 0 <= i < addrs.len() ==> state.queued(addrs).knows(#[trigger] addrs[i]),
        forall|a: Seq<char>| state.knows(a) ==> state.queued(addrs).knows(a),
    decreases addrs.len(),
{
    let after = state.queued(addrs);
    assert forall|a: Seq<char>| state.knows(a) implies after.knows(a) by {
        if state.pending.contains(a) {
            let k = state.pending.index_of(a);
            assert(after.pending[k] == a);
        }
    }
    if addrs.len() > 0 {
        let front = addrs.drop_last();
        lemma_named_are_known(state, front);
        let earlier = state.fresh(front);
        let mid = state.queued(front);
        assert forall|i: int| 0 <= i < addrs.len() implies after.knows(#[trigger] addrs[i]) by {
            let a = addrs[i];
            if i < addrs.len() - 1 {
                assert(front[i] == a);
                assert(mid.knows(a));
                if mid.pending.contains(a) {
                    let k = mid.pending.index_of(a);
                    if k < state.pending.len() {
                        assert(after.pending[k] == a);
                    } else {
                        assert(earlier[k - state.pending.len()] == a);
                        assert(state.fresh(addrs)[k - state.pending.len()] == a);
                        assert(after.pending[k] == a);
                    }
                }
            } else {
                assert(a == addrs.last());
                if state.knows(a) {
                } else if earlier.contains(a) {
                    let k = earlier.index_of(a);
                    assert(after.pending[state.pending.len() + k] == a);
                } else {
                    assert(after.pending[(state.pending.len() + earlier.len()) as int] == a);
                }
            }
        }
    }
}

/// Addresses that are heard of are not new.
proof fn lemma_known_are_not_fresh(state: DiscoveryState, addrs: Seq<Seq<char>>)
    requires
        forall|i: int| 0 <= i < addrs.len() ==> state.knows(#[trigger] addrs[i]),
    ensures
        state.fresh(addrs).len() == 0,
    decreases addrs.len(),
{
    if addrs.len() > 0 {
        let front = addrs.drop_last();
        assert forall|i: int| 0 <= i < front.len() implies state.knows(#[trigger] front[i]) by {
            assert(front[i] == addrs[i]);
        }
        lemma_known_are_not_fresh(state, front);
        assert(state.knows(addrs[addrs.len() - 1]));
    }
}

} // verus!
