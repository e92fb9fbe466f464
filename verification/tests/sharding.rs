use coerce::actor::ActorRefErr;
use coerce::remote::cluster::sharding::coordinator::{
    AllocateShard, AllocateShardResult, Rebalance, ShardCoordinator, ShardHostState,
    ShardHostStatus, ShardRecord, ShardState,
};
use coerce::remote::cluster::sharding::host::{
    HostAction, RemoteEntityRequest, Resolved, ShardHost, StartShard, StopShard,
    DEFAULT_BUFFER_LIMIT,
};
use coerce::remote::cluster::sharding::shard::{EntityAction, Shard, StartEntity};
use coerce::remote::cluster::sharding::{shard_of, DEFAULT_SHARD_COUNT};
use coerce::actor::BoxedActorRef;
use std::collections::hash_map::DefaultHasher;
use std::hash::Hasher;

fn host(node_id: u64, status: ShardHostStatus) -> ShardHostState {
    ShardHostState { node_id, node_tag: format!("node-{}", node_id), status }
}

fn request(entity: &str, recipe: Option<Vec<u8>>) -> RemoteEntityRequest {
    RemoteEntityRequest {
        actor_id: entity.to_string(),
        message_type: "SetStatusRequest".to_string(),
        message: vec![1],
        recipe,
    }
}

fn allocate(coordinator: &mut ShardCoordinator, shard_id: u32) -> Option<u64> {
    match coordinator.allocate_shard(AllocateShard { shard_id }) {
        AllocateShardResult::Allocated(node) => Some(node),
        AllocateShardResult::Start(node) => {
            assert!(coordinator.shard_started(shard_id, node).is_some());
            Some(node)
        }
        AllocateShardResult::Pending(_) => panic!("nothing is pending"),
        AllocateShardResult::Unavailable => None,
    }
}

#[test]
fn shard_is_hash_of_entity_id_modulo_count() {
    let mut hasher = DefaultHasher::new();
    hasher.write("leon".as_bytes());
    let hash = hasher.finish();
    assert_eq!(shard_of("leon", 1000) as u64, hash % 1000);
    assert_eq!(shard_of("leon", 7) as u64, hash % 7);
    assert_eq!(shard_of("leon", 1), 0);
    assert_eq!(shard_of("leon", 1000), 553);
    assert_eq!(shard_of("leon", 7), 6);
    assert_eq!(shard_of("", 1000), 140);
    assert_eq!(shard_of("leon", u32::MAX) as u64, hash % (u32::MAX as u64));
    assert_eq!(DEFAULT_SHARD_COUNT, 1000);
}

#[test]
fn shard_of_is_the_same_for_the_same_entity() {
    for entity in ["leon", "", "entity-1", "ünïcödé"] {
        for count in [1u32, 2, 10, 1000] {
            let shard = shard_of(entity, count);
            assert!(shard < count);
            assert_eq!(shard, shard_of(&entity.to_string(), count));
        }
    }
    assert_ne!(
        (0..64).map(|i| shard_of(&format!("e{}", i), 1000)).collect::<std::collections::HashSet<_>>().len(),
        1
    );
}

#[test]
fn shard_goes_to_the_ready_host_with_fewest_shards() {
    let mut coordinator = ShardCoordinator::new("TestActor".to_string());
    assert_eq!(
        coordinator.allocate_shard(AllocateShard { shard_id: 1 }),
        AllocateShardResult::Unavailable
    );
    assert!(coordinator.records().is_empty());
    coordinator.add_host(host(2, ShardHostStatus::Ready));
    coordinator.add_host(host(1, ShardHostStatus::Ready));
    coordinator.add_host(host(3, ShardHostStatus::Joining));
    assert_eq!(
        coordinator.allocate_shard(AllocateShard { shard_id: 10 }),
        AllocateShardResult::Start(1)
    );
    assert_eq!(coordinator.shard_record(10).state, ShardState::Allocating(1));
    assert_eq!(coordinator.shard_host(10), None);
    assert_eq!(
        coordinator.allocate_shard(AllocateShard { shard_id: 10 }),
        AllocateShardResult::Pending(1)
    );
    assert_eq!(coordinator.shard_started(10, 2), None);
    assert_eq!(
        coordinator.shard_started(10, 1),
        Some(ShardRecord { shard_id: 10, state: ShardState::Allocated(1), generation: 1 })
    );
    assert_eq!(coordinator.shard_started(10, 1), None);
    assert_eq!(coordinator.shard_host(10), Some(1));
    assert_eq!(allocate(&mut coordinator, 11), Some(2));
    assert_eq!(allocate(&mut coordinator, 12), Some(1));
    assert_eq!(allocate(&mut coordinator, 13), Some(2));
    assert_eq!(
        coordinator.allocate_shard(AllocateShard { shard_id: 10 }),
        AllocateShardResult::Allocated(1)
    );
    assert_eq!(coordinator.shard_count(1), 2);
    assert_eq!(coordinator.shard_count(2), 2);
    assert_eq!(coordinator.shard_count(3), 0);
    assert_eq!(coordinator.least_loaded(), Some(1));
    assert_eq!(coordinator.most_loaded(), Some(1));
}

#[test]
fn shard_that_is_being_started_counts_for_its_host() {
    let mut coordinator = ShardCoordinator::new("TestActor".to_string());
    coordinator.add_host(host(1, ShardHostStatus::Ready));
    coordinator.add_host(host(2, ShardHostStatus::Ready));
    assert_eq!(
        coordinator.allocate_shard(AllocateShard { shard_id: 1 }),
        AllocateShardResult::Start(1)
    );
    assert_eq!(
        coordinator.allocate_shard(AllocateShard { shard_id: 2 }),
        AllocateShardResult::Start(2)
    );
    assert!(coordinator.shard_start_failed(1, 1));
    assert!(!coordinator.shard_start_failed(1, 1));
    assert_eq!(coordinator.shard_record(1).state, ShardState::Unallocated);
    assert_eq!(
        coordinator.allocate_shard(AllocateShard { shard_id: 3 }),
        AllocateShardResult::Start(1)
    );
}

#[test]
fn each_shard_has_one_record_and_one_host() {
    let mut coordinator = ShardCoordinator::new("TestActor".to_string());
    coordinator.add_host(host(1, ShardHostStatus::Ready));
    coordinator.add_host(host(2, ShardHostStatus::Ready));
    for shard in [5u32, 6, 5, 7, 6, 5] {
        allocate(&mut coordinator, shard);
    }
    let records = coordinator.records();
    let mut shards: Vec<u32> = records.iter().map(|r| r.shard_id).collect();
    shards.sort();
    assert_eq!(shards, vec![5, 6, 7]);
    assert_eq!(
        records[0],
        ShardRecord { shard_id: 5, state: ShardState::Allocated(1), generation: 1 }
    );
    assert_eq!(coordinator.shard_host(5), Some(1));
    assert_eq!(coordinator.shard_count(1) + coordinator.shard_count(2), 3);
}

#[test]
fn lost_host_gives_up_its_shards() {
    let mut coordinator = ShardCoordinator::new("TestActor".to_string());
    coordinator.add_host(host(1, ShardHostStatus::Ready));
    coordinator.add_host(host(2, ShardHostStatus::Ready));
    let shard = shard_of("leon", 1000);
    assert_eq!(allocate(&mut coordinator, shard), Some(1));
    assert_eq!(allocate(&mut coordinator, shard + 1), Some(2));
    assert_eq!(allocate(&mut coordinator, shard + 2), Some(1));
    assert_eq!(coordinator.host_lost(1), vec![shard, shard + 2]);
    assert_eq!(coordinator.host_status(1), Some(ShardHostStatus::Unavailable));
    assert_eq!(coordinator.shard_host(shard), None);
    assert_eq!(coordinator.shard_count(1), 0);
    assert_eq!(
        coordinator.allocate_shard(AllocateShard { shard_id: shard }),
        AllocateShardResult::Start(2)
    );
    assert_eq!(
        coordinator.shard_started(shard, 2),
        Some(ShardRecord { shard_id: shard, state: ShardState::Allocated(2), generation: 2 })
    );
    assert_eq!(coordinator.host_lost(2), vec![shard, shard + 1, shard + 2]);
    assert_eq!(
        coordinator.allocate_shard(AllocateShard { shard_id: shard }),
        AllocateShardResult::Unavailable
    );
    assert_eq!(coordinator.host_status(9), None);
}

#[test]
fn shard_of_a_host_that_is_not_ready_is_started_elsewhere() {
    let mut coordinator = ShardCoordinator::new("TestActor".to_string());
    coordinator.add_host(host(1, ShardHostStatus::Ready));
    assert_eq!(allocate(&mut coordinator, 1), Some(1));
    coordinator.add_host(host(1, ShardHostStatus::Joining));
    assert_eq!(
        coordinator.allocate_shard(AllocateShard { shard_id: 1 }),
        AllocateShardResult::Unavailable
    );
    coordinator.add_host(host(2, ShardHostStatus::Ready));
    assert_eq!(
        coordinator.allocate_shard(AllocateShard { shard_id: 1 }),
        AllocateShardResult::Start(2)
    );
    assert_eq!(coordinator.shard_record(1).state, ShardState::Allocating(2));
}

#[test]
fn host_that_announces_itself_again_is_refreshed() {
    let mut coordinator = ShardCoordinator::new("TestActor".to_string());
    coordinator.add_host(host(1, ShardHostStatus::Joining));
    assert_eq!(coordinator.least_loaded(), None);
    coordinator.add_host(host(1, ShardHostStatus::Ready));
    assert_eq!(coordinator.host_status(1), Some(ShardHostStatus::Ready));
    assert_eq!(coordinator.least_loaded(), Some(1));
}

#[test]
fn rebalance_moves_a_shard_when_hosts_differ_by_two() {
    let mut coordinator = ShardCoordinator::new("TestActor".to_string());
    coordinator.add_host(host(1, ShardHostStatus::Ready));
    for shard in 0..3u32 {
        assert_eq!(allocate(&mut coordinator, shard), Some(1));
    }
    assert_eq!(coordinator.rebalance(), None);
    coordinator.add_host(host(2, ShardHostStatus::Ready));
    assert_eq!(
        coordinator.rebalance(),
        Some(Rebalance { shard_id: 0, donor: 1, recipient: 2 })
    );
    assert_eq!(coordinator.shard_record(0).state, ShardState::Migrating(1, 2));
    assert_eq!(coordinator.shard_host(0), Some(1));
    assert_eq!(coordinator.shard_count(1), 2);
    assert_eq!(coordinator.shard_count(2), 1);
    assert_eq!(coordinator.rebalance(), None);
    assert_eq!(
        coordinator.allocate_shard(AllocateShard { shard_id: 0 }),
        AllocateShardResult::Pending(2)
    );
    assert_eq!(coordinator.shard_stopped(0, 2), None);
    assert_eq!(coordinator.shard_stopped(0, 1), Some(2));
    assert_eq!(coordinator.shard_stopped(0, 1), None);
    assert_eq!(coordinator.shard_record(0).state, ShardState::Allocating(2));
    assert_eq!(
        coordinator.shard_started(0, 2),
        Some(ShardRecord { shard_id: 0, state: ShardState::Allocated(2), generation: 2 })
    );
    assert_eq!(coordinator.shard_stopped(1, 1), None);
    assert_eq!(coordinator.shard_record(1).state, ShardState::Unallocated);
}

#[test]
fn loss_of_a_host_ends_the_moves_that_it_took_part_in() {
    let mut coordinator = ShardCoordinator::new("TestActor".to_string());
    coordinator.add_host(host(1, ShardHostStatus::Ready));
    for shard in 0..4u32 {
        allocate(&mut coordinator, shard);
    }
    coordinator.add_host(host(2, ShardHostStatus::Ready));
    assert_eq!(coordinator.rebalance(), Some(Rebalance { shard_id: 0, donor: 1, recipient: 2 }));
    assert!(coordinator.host_lost(2).is_empty());
    assert_eq!(coordinator.shard_record(0).state, ShardState::Allocated(1));
    coordinator.add_host(host(2, ShardHostStatus::Ready));
    assert_eq!(coordinator.rebalance(), Some(Rebalance { shard_id: 0, donor: 1, recipient: 2 }));
    assert_eq!(coordinator.host_lost(1), vec![0, 1, 2, 3]);
    assert_eq!(ShardState::Migrating(1, 2).owner(), Some(2));
    assert_eq!(ShardState::Migrating(1, 2).without(3), ShardState::Migrating(1, 2));
    assert_eq!(ShardState::Unallocated.owner(), None);
}

#[test]
fn host_delivers_to_local_shards_and_buffers_for_others() {
    let mut shard_host = ShardHost::new(1, 1000, 2);
    let shard = shard_of("leon", 1000);
    match shard_host.handle_request(request("leon", None)) {
        HostAction::Wait { shard_id, allocate, overflow } => {
            assert_eq!(shard_id, shard);
            assert_eq!(allocate, Some(AllocateShard { shard_id: shard }));
            assert!(overflow.is_none());
        }
        _ => panic!("first request waits"),
    }
    match shard_host.handle_request(request("leon", Some(vec![2]))) {
        HostAction::Wait { allocate, overflow, .. } => {
            assert_eq!(allocate, None);
            assert!(overflow.is_none());
        }
        _ => panic!("second request waits"),
    }
    match shard_host.handle_request(request("leon", Some(vec![3]))) {
        HostAction::Wait { overflow: Some((oldest, error)), .. } => {
            assert_eq!(oldest.recipe, None);
            assert_eq!(error, ActorRefErr::ShardBufferFull);
        }
        _ => panic!("third request overflows"),
    }
    match shard_host.handle_allocated(shard, Some(1)) {
        Resolved::StartLocal { start, requests } => {
            assert_eq!(start, StartShard { shard_id: shard });
            let recipes: Vec<_> = requests.iter().map(|r| r.recipe.clone()).collect();
            assert_eq!(recipes, vec![Some(vec![2]), Some(vec![3])]);
        }
        _ => panic!("shard starts here"),
    }
    assert!(shard_host.hosts(shard));
    match shard_host.handle_request(request("leon", None)) {
        HostAction::Deliver { shard_id, request } => {
            assert_eq!(shard_id, shard);
            assert_eq!(request.actor_id, "leon");
        }
        _ => panic!("request is delivered"),
    }
    assert!(shard_host.handle_stop(StopShard { shard_id: shard }));
    assert!(!shard_host.handle_stop(StopShard { shard_id: shard }));
    assert_eq!(DEFAULT_BUFFER_LIMIT, 1024);
}

#[test]
fn host_forwards_or_fails_what_waited() {
    let mut shard_host = ShardHost::new(1, 10, 8);
    let shard = shard_of("a", 10);
    shard_host.handle_request(request("a", None));
    match shard_host.handle_allocated(shard, Some(2)) {
        Resolved::ForwardTo { node_id, requests } => {
            assert_eq!(node_id, 2);
            assert_eq!(requests.len(), 1);
        }
        _ => panic!("forward"),
    }
    assert!(!shard_host.hosts(shard));
    shard_host.handle_request(request("a", None));
    match shard_host.handle_allocated(shard, None) {
        Resolved::Fail { requests, error } => {
            assert_eq!(requests.len(), 1);
            assert_eq!(error, ActorRefErr::ShardUnavailable);
        }
        _ => panic!("fail"),
    }
    match shard_host.handle_allocated(shard, None) {
        Resolved::Fail { requests, .. } => assert!(requests.is_empty()),
        _ => panic!("nothing waited"),
    }
}

#[test]
fn host_with_no_room_fails_the_request_itself() {
    let mut shard_host = ShardHost::new(1, 10, 0);
    match shard_host.handle_request(request("a", Some(vec![9]))) {
        HostAction::Wait { overflow: Some((given_way, error)), .. } => {
            assert_eq!(given_way.recipe, Some(vec![9]));
            assert_eq!(error, ActorRefErr::ShardBufferFull);
        }
        _ => panic!("overflow"),
    }
}

#[test]
fn shard_creates_entities_from_recipes_only() {
    let mut shard = Shard::new(3);
    match shard.handle_request(request("leon", None)) {
        EntityAction::Fail { error, request } => {
            assert_eq!(error, ActorRefErr::EntityNotFound);
            assert_eq!(request.actor_id, "leon");
        }
        _ => panic!("entity not found"),
    }
    match shard.handle_request(request("leon", Some(vec![]))) {
        EntityAction::Create { request } => assert_eq!(request.recipe, Some(vec![])),
        _ => panic!("entity is created"),
    }
    shard.entity_started(
        BoxedActorRef {
            id: "leon".to_string(),
            actor_type: "TestActor".to_string(),
            system_id: None,
        },
        vec![4, 2],
    );
    match shard.handle_request(request("leon", None)) {
        EntityAction::Forward { entity, .. } => assert_eq!(entity.id, "leon"),
        _ => panic!("request is forwarded"),
    }
    assert!(shard.entity_stopped(&"leon".to_string()));
    assert!(!shard.entity_stopped(&"leon".to_string()));
    assert!(matches!(shard.handle_request(request("leon", None)), EntityAction::Recover { .. }));
    assert_eq!(shard.recipe_of(&"leon".to_string()), Some(&vec![4, 2]));
    assert!(matches!(shard.handle_request(request("leon", Some(vec![1]))), EntityAction::Create { .. }));
    assert!(matches!(shard.handle_request(request("noel", None)), EntityAction::Fail { .. }));
}

#[test]
fn shard_recovers_the_recipes_of_its_journal() {
    let event = |id: &str, recipe: u8| StartEntity { actor_id: id.to_string(), recipe: vec![recipe] };
    let shard = Shard::recover(3, vec![event("a", 1), event("b", 2), event("a", 3)]);
    assert_eq!(shard.recipe_of(&"a".to_string()), Some(&vec![3]));
    assert_eq!(shard.recipe_of(&"b".to_string()), Some(&vec![2]));
    assert_eq!(shard.recipe_of(&"c".to_string()), None);
    assert!(matches!(shard.handle_request(request("a", None)), EntityAction::Recover { .. }));
    assert!(matches!(shard.handle_request(request("c", None)), EntityAction::Fail { .. }));
    let empty = Shard::recover(1, vec![]);
    assert_eq!(empty.recipe_of(&"a".to_string()), None);
}

#[test]
fn coordinator_recovers_its_records() {
    let record = |shard_id, state, generation| ShardRecord { shard_id, state, generation };
    let journal = vec![
        record(1, ShardState::Allocated(1), 1),
        record(2, ShardState::Allocated(2), 1),
        record(1, ShardState::Unallocated, 1),
        record(1, ShardState::Allocated(2), 2),
    ];
    let mut coordinator = ShardCoordinator::recover("TestActor".to_string(), &journal);
    assert_eq!(
        coordinator.records(),
        vec![record(1, ShardState::Allocated(2), 2), record(2, ShardState::Allocated(2), 1)]
    );
    assert_eq!(coordinator.shard_host(1), Some(2));
    assert_eq!(
        coordinator.allocate_shard(AllocateShard { shard_id: 1 }),
        AllocateShardResult::Unavailable
    );
    coordinator.add_host(host(2, ShardHostStatus::Ready));
    assert_eq!(
        coordinator.allocate_shard(AllocateShard { shard_id: 1 }),
        AllocateShardResult::Allocated(2)
    );
    assert_eq!(coordinator.shard_count(2), 2);
    assert!(ShardCoordinator::recover("TestActor".to_string(), &vec![]).records().is_empty());
}
