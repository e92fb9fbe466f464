use coerce::remote::cluster::node::{RemoteNode, Timestamp};
use coerce::remote::cluster::registry::{restarted, RemoteRegistry};

fn node(id: u64, addr: &str, started: Option<i64>) -> RemoteNode {
    RemoteNode::new(
        id,
        addr.to_string(),
        format!("node-{}", id),
        started.map(|seconds| Timestamp { seconds, nanos: 0 }),
    )
}

fn ids(registry: &RemoteRegistry) -> Vec<u64> {
    registry.get_nodes().iter().map(|n| n.id).collect()
}

#[test]
fn members_are_kept_in_order_of_admission() {
    let mut registry = RemoteRegistry::new();
    assert!(registry.register_node(node(2, "b", Some(1))));
    assert!(registry.register_node(node(1, "a", Some(1))));
    assert!(!registry.register_node(node(2, "other", Some(5))));
    assert_eq!(ids(&registry), vec![2, 1]);
    assert_eq!(registry.get_nodes()[0].addr, "b");
    assert!(registry.contains(1));
    assert!(!registry.contains(3));
}

#[test]
fn terminated_node_is_not_readmitted_without_new_start() {
    let mut registry = RemoteRegistry::new();
    registry.register_node(node(1, "a", Some(100)));
    registry.register_node(node(2, "b", Some(100)));
    registry.terminate(2);
    assert_eq!(ids(&registry), vec![1]);
    assert!(registry.is_terminated(2));
    assert!(!registry.register_node(node(2, "b", Some(100))));
    assert!(!registry.register_node(node(2, "b", Some(99))));
    assert!(!registry.register_node(node(2, "b", None)));
    registry.register_nodes(vec![node(2, "b", Some(100)), node(3, "c", None), node(2, "b", None)]);
    assert_eq!(ids(&registry), vec![1, 3]);
    assert!(registry.is_terminated(2));
    assert!(registry.register_node(node(2, "b2", Some(101))));
    assert_eq!(ids(&registry), vec![1, 3, 2]);
    assert!(!registry.is_terminated(2));
    assert_eq!(registry.get_nodes()[2].addr, "b2");
}

#[test]
fn start_times_compare_by_seconds_then_nanos() {
    let t = |seconds, nanos| Some(Timestamp { seconds, nanos });
    assert!(restarted(t(2, 0), t(1, 999)));
    assert!(restarted(t(1, 1), t(1, 0)));
    assert!(!restarted(t(1, 0), t(1, 0)));
    assert!(!restarted(t(0, 5), t(1, 0)));
    assert!(restarted(t(0, 0), None));
    assert!(!restarted(None, None));
    assert!(!restarted(None, t(0, 0)));
    assert!(Timestamp { seconds: -1, nanos: 5 }.is_after(Timestamp { seconds: -1, nanos: 4 }));
}

#[test]
fn terminating_an_unknown_node_remembers_it() {
    let mut registry = RemoteRegistry::new();
    registry.terminate(9);
    assert!(registry.is_terminated(9));
    assert!(!registry.register_node(node(9, "x", None)));
    assert!(registry.register_node(node(9, "x", Some(0))));
}

#[test]
fn terminating_again_keeps_the_remembered_start() {
    let mut registry = RemoteRegistry::new();
    registry.register_node(node(4, "d", Some(50)));
    registry.terminate(4);
    registry.terminate(4);
    assert!(!registry.register_node(node(4, "d", Some(50))));
    assert!(registry.register_node(node(4, "d", Some(51))));
}

#[test]
fn registering_the_same_nodes_twice_changes_nothing() {
    let mut registry = RemoteRegistry::new();
    registry.register_node(node(1, "a", Some(1)));
    registry.terminate(5);
    let peers = || vec![node(2, "b", Some(1)), node(5, "e", None), node(2, "bb", Some(9)), node(3, "c", None)];
    registry.register_nodes(peers());
    let once: Vec<(u64, String)> = registry.get_nodes().iter().map(|n| (n.id, n.addr.clone())).collect();
    registry.register_nodes(peers());
    let twice: Vec<(u64, String)> = registry.get_nodes().iter().map(|n| (n.id, n.addr.clone())).collect();
    assert_eq!(once, twice);
    assert_eq!(once, vec![(1, "a".to_string()), (2, "b".to_string()), (3, "c".to_string())]);
}

#[test]
fn actors_are_located_by_id() {
    let mut registry = RemoteRegistry::new();
    let id = "actor-1".to_string();
    assert_eq!(registry.locate_actor_node(&id), None);
    registry.register_actor(id.clone(), 3);
    assert_eq!(registry.locate_actor_node(&id), Some(3));
    registry.register_actor(id.clone(), 4);
    assert_eq!(registry.locate_actor_node(&id), Some(4));
    assert_eq!(registry.locate_actor_node(&"actor-2".to_string()), None);
}
