//! What a node reports of itself.
use crate::actor::scheduler::ActorScheduler;
use crate::remote::system::RemoteActorSystem;
use vstd::prelude::*;

verus! {

/// The figures of a node.
#[derive(Clone, Copy, Debug, PartialEq, Eq, Structural)]
pub struct SystemStats {
    pub inflight_remote_requests: usize,
    pub total_tracked_actors: usize,
}

/// Reads the figures of a node: how many of its requests wait for a reply,
/// and how many actors its scheduler tracks.
pub fn get_stats<S>(system: &RemoteActorSystem<S>, scheduler: &ActorScheduler) -> (stats: SystemStats)
    ensures
        stats.inflight_remote_requests == system.requests().len(),
        stats.total_tracked_actors == scheduler.actors().len(),
{
    SystemStats {
        inflight_remote_requests: system.inflight_remote_request_count(),
        total_tracked_actors: scheduler.total_tracked_actors(),
    }
}

} // verus!
