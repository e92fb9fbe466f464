//! Liveness of the peers of a node.
use crate::actor::Actor;
use crate::NodeId;
use vstd::prelude::*;
use vstd::string::StringExecFns;

verus! {

/// The periods of the heartbeat, in milliseconds.
#[derive(Clone, Copy, Debug, PartialEq, Eq, Structural)]
pub struct HeartbeatConfig {
    /// How often every peer is pinged.
    pub interval: u64,
    /// How long a pong may take.
    pub ping_timeout: u64,
    /// After how long without a pong a peer counts as unhealthy.
    pub unhealthy_node_heartbeat_timeout: u64,
    /// After how long without a pong a peer counts as terminated.
    pub terminated_node_heartbeat_timeout: u64,
}

/// What the time since its last pong says of a peer.
#[derive(Clone, Copy, Debug, PartialEq, Eq, Structural)]
pub enum NodeHealth {
    /// The last pong came within the ping timeout.
    Healthy,
    /// The pong is overdue, but not for long enough to act on it.
    Overdue,
    /// No shards are given to the peer, and its shards may be moved.
    Unhealthy,
    /// The peer leaves the cluster.
    Terminated,
}

/// The health of a peer whose last pong is `silence` milliseconds old.
pub open spec fn health_of(config: HeartbeatConfig, silence: u64) -> NodeHealth {
    if silence >= config.terminated_node_heartbeat_timeout {
        NodeHealth::Terminated
    } else if silence >= config.unhealthy_node_heartbeat_timeout {
        NodeHealth::Unhealthy
    } else if silence > config.ping_timeout {
        NodeHealth::Overdue
    } else {
        NodeHealth::Healthy
    }
}

/// Tells the heartbeat that a node has said that it is shutting down.
#[derive(Clone, Copy, Debug, PartialEq, Eq, Structural)]
pub struct NodeTerminated(pub NodeId);

/// One peer as the heartbeat sees it.
#[derive(Clone, Copy, Debug, PartialEq, Eq, Structural)]
pub struct PeerPulse {
    pub node_id: NodeId,
    /// When the last pong came, in milliseconds on the node's clock.
    pub last_pong: u64,
    /// Whether the peer has said that it is shutting down.
    pub terminated: bool,
}

/// What one round of the heartbeat finds.
pub struct HeartbeatRound {
    /// The peers to ping.
    pub ping: Vec<NodeId>,
    /// The peers that are unhealthy.
    pub unhealthy: Vec<NodeId>,
    /// The peers that are terminated and leave the heartbeat.
    pub terminated: Vec<NodeId>,
}

/// The heartbeat of one node.
pub struct Heartbeat {
    config: HeartbeatConfig,
    peers: Vec<PeerPulse>,
}

impl Actor for Heartbeat {
    open spec fn type_tag() -> Seq<char> {
        "Heartbeat"@
    }

    fn actor_type() -> (name: String) {
        String::from_str("Heartbeat")
    }
}

/// The peer after a pong of `node_id` at `now`: only that node changes.
pub open spec fn after_pong(node_id: NodeId, now: u64) -> spec_fn(PeerPulse) -> PeerPulse {
    |p: PeerPulse|
        if p.node_id == node_id {
            PeerPulse { last_pong: now, ..p }
        } else {
            p
        }
}

/// The peer after `node_id` said that it is shutting down.
pub open spec fn after_farewell(node_id: NodeId) -> spec_fn(PeerPulse) -> PeerPulse {
    |p: PeerPulse|
        if p.node_id == node_id {
            PeerPulse { terminated: true, ..p }
        } else {
            p
        }
}

/// The peers that have the health `health` at `now`.
pub open spec fn with_health(config: HeartbeatConfig, now: u64, health: NodeHealth) -> spec_fn(
    PeerPulse,
) -> bool {
    |p: PeerPulse| pulse_health(config, p, now) == health
}

/// The peers that are not terminated at `now`.
pub open spec fn alive(config: HeartbeatConfig, now: u64) -> spec_fn(PeerPulse) -> bool {
    |p: PeerPulse| pulse_health(config, p, now) != NodeHealth::Terminated
}

/// The identifiers of peers.
pub open spec fn node_ids(peers: Seq<PeerPulse>) -> Seq<NodeId> {
    peers.map_values(|p: PeerPulse| p.node_id)
}

/// The health of a peer at the time `now`.
pub open spec fn pulse_health(config: HeartbeatConfig, peer: PeerPulse, now: u64) -> NodeHealth {
    if peer.terminated {
        NodeHealth::Terminated
    } else if now >= peer.last_pong {
        health_of(config, (now - peer.last_pong) as u64)
    } else {
        NodeHealth::Healthy
    }
}

impl Heartbeat {
    /// The periods of the heartbeat.
    pub closed spec fn config(&self) -> HeartbeatConfig {
        self.config
    }

    /// The peers in the order in which they were added.
    pub closed spec fn peers(&self) -> Seq<PeerPulse> {
        self.peers@
    }

    pub fn new(config: HeartbeatConfig) -> (heartbeat: Heartbeat)
        ensures
            heartbeat.config() == config,
            heartbeat.peers() == Seq::<PeerPulse>::empty(),
    {
        Heartbeat { config, peers: Vec::new() }
    }

    /// The health of a peer whose last pong is `silence` milliseconds old.
    pub fn classify(&self, silence: u64) -> (health: NodeHealth)
        ensures
            health == health_of(self.config(), silence),
    {
        if silence >= self.config.terminated_node_heartbeat_timeout {
            NodeHealth::Terminated
        } else if silence >= self.config.unhealthy_node_heartbeat_timeout {
            NodeHealth::Unhealthy
        } else if silence > self.config.ping_timeout {
            NodeHealth::Overdue
        } else {
            NodeHealth::Healthy
        }
    }

    /// Starts to watch a peer, taking `now` as the time of its last pong.
    pub fn watch(&mut self, node_id: NodeId, now: u64)
        ensures
            final(self).peers() == old(self).peers().push(
                PeerPulse { node_id, last_pong: now, terminated: false },
            ),
            final(self).config() == old(self).config(),
    {
        self.peers.push(PeerPulse { node_id, last_pong: now, terminated: false });
    }

    /// Notes a pong of `node_id` that came at `now`.
    pub fn on_pong(&mut self, node_id: NodeId, now: u64)
        ensures
            final(self).config() == old(self).config(),
            final(self).peers() == old(self).peers().map_values(after_pong(node_id, now)),
    {
        let ghost before = self.peers@;
        let mut i: usize = 0;
        while i < self.peers.len()
            invariant
                i <= self.peers.len(),
                self.peers@.len() == before.len(),
                self.config == old(self).config,
                forall|j: int| 0 <= j < i ==> self.peers@[j] == after_pong(node_id, now)(before[j]),
                forall|j: int| i <= j < before.len() ==> self.peers@[j] == before[j],
            decreases self.peers.len() - i,
        {
            let peer = self.peers[i];
            if peer.node_id == node_id {
                self.peers.set(i, PeerPulse { last_pong: now, ..peer });
            }
            i += 1;
        }
        proof {
            assert(self.peers@ =~= before.map_values(after_pong(node_id, now)));
        }
    }

    /// Notes that a node has said that it is shutting down.
    pub fn on_node_terminated(&mut self, message: NodeTerminated)
        ensures
            final(self).config() == old(self).config(),
            final(self).peers() == old(self).peers().map_values(after_farewell(message.0)),
    {
        let ghost before = self.peers@;
        let mut i: usize = 0;
        while i < self.peers.len()
            invariant
                i <= self.peers.len(),
                self.peers@.len() == before.len(),
                self.config == old(self).config,
                forall|j: int| 0 <= j < i ==> self.peers@[j] == after_farewell(message.0)(before[j]),
                forall|j: int| i <= j < before.len() ==> self.peers@[j] == before[j],
            decreases self.peers.len() - i,
        {
            let peer = self.peers[i];
            if peer.node_id == message.0 {
                self.peers.set(i, PeerPulse { terminated: true, ..peer });
            }
            i += 1;
        }
        proof {
            assert(self.peers@ =~= before.map_values(after_farewell(message.0)));
        }
    }

    /// One round of the heartbeat at the time `now`: the peers that are
    /// terminated leave, all others are pinged, and those among them that
    /// are unhealthy are named.
    pub fn tick(&mut self, now: u64) -> (round: HeartbeatRound)
        ensures
            final(self).config() == old(self).config(),
            final(self).peers() == old(self).peers().filter(alive(old(self).config(), now)),
            round.ping@ == node_ids(final(self).peers()),
            round.terminated@ == node_ids(
                old(self).peers().filter(
                    with_health(old(self).config(), now, NodeHealth::Terminated),
                ),
            ),
            round.unhealthy@ == node_ids(
                old(self).peers().filter(
                    with_health(old(self).config(), now, NodeHealth::Unhealthy),
                ),
            ),
    {
        let ghost before = self.peers@;
        let ghost config = self.config;
        let mut kept: Vec<PeerPulse> = Vec::new();
        let mut ping: Vec<NodeId> = Vec::new();
        let mut unhealthy: Vec<NodeId> = Vec::new();
        let mut terminated: Vec<NodeId> = Vec::new();
        let mut i: usize = 0;
        proof {
            let none = before.take(0);
            assert(none =~= Seq::<PeerPulse>::empty());
            assert(none.filter(alive(config, now)) =~= Seq::<PeerPulse>::empty());
            assert(none.filter(with_health(config, now, NodeHealth::Terminated)) =~= Seq::<
                PeerPulse,
            >::empty());
            assert(none.filter(with_health(config, now, NodeHealth::Unhealthy)) =~= Seq::<
                PeerPulse,
            >::empty());
            assert(ping@ =~= node_ids(kept@));
            assert(terminated@ =~= node_ids(Seq::<PeerPulse>::empty()));
            assert(unhealthy@ =~= node_ids(Seq::<PeerPulse>::empty()));
        }
        while i < self.peers.len()
            invariant
                i <= self.peers.len(),
                self.peers@ == before,
                self.config == config,
                kept@ == before.take(i as int).filter(alive(config, now)),
                ping@ == node_ids(kept@),
                terminated@ == node_ids(
                    before.take(i as int).filter(
                        with_health(config, now, NodeHealth::Terminated),
                    ),
                ),
                unhealthy@ == node_ids(
                    before.take(i as int).filter(with_health(config, now, NodeHealth::Unhealthy)),
                ),
            decreases self.peers.len() - i,
        {
            let peer = self.peers[i];
            let health = if peer.terminated {
                NodeHealth::Terminated
            } else if now >= peer.last_pong {
                self.classify(now - peer.last_pong)
            } else {
                NodeHealth::Healthy
            };
            proof {
                let seen = before.take(i as int);
                assert(health == pulse_health(config, peer, now));
                assert(before.take(i as int + 1) == seen.push(peer));
                Seq::lemma_filter_push(seen, peer, alive(config, now));
                Seq::lemma_filter_push(seen, peer, with_health(config, now, NodeHealth::Terminated));
                Seq::lemma_filter_push(seen, peer, with_health(config, now, NodeHealth::Unhealthy));
                let id_of = |p: PeerPulse| p.node_id;
                Seq::lemma_push_map_commute(kept@, id_of, peer);
                Seq::lemma_push_map_commute(
                    seen.filter(with_health(config, now, NodeHealth::Terminated)),
                    id_of,
                    peer,
                );
                Seq::lemma_push_map_commute(
                    seen.filter(with_health(config, now, NodeHealth::Unhealthy)),
                    id_of,
                    peer,
                );
            }
            match health {
                NodeHealth::Terminated => {
                    terminated.push(peer.node_id);
                },
                NodeHealth::Unhealthy => {
                    unhealthy.push(peer.node_id);
                    kept.push(peer);
                    ping.push(peer.node_id);
                },
                _ => {
                    kept.push(peer);
                    ping.push(peer.node_id);
                },
            }
            i += 1;
        }
        proof {
            assert(before.take(i as int) == before);
        }
        self.peers = kept;
        HeartbeatRound { ping, unhealthy, terminated }
    }
}

} // verus!
