use coerce::remote::heartbeat::{Heartbeat, HeartbeatConfig, NodeHealth, NodeTerminated};

fn config() -> HeartbeatConfig {
    HeartbeatConfig {
        interval: 500,
        ping_timeout: 10,
        unhealthy_node_heartbeat_timeout: 750,
        terminated_node_heartbeat_timeout: 1000,
    }
}

#[test]
fn silence_is_classified_by_the_timeouts() {
    let heartbeat = Heartbeat::new(config());
    assert_eq!(heartbeat.classify(0), NodeHealth::Healthy);
    assert_eq!(heartbeat.classify(10), NodeHealth::Healthy);
    assert_eq!(heartbeat.classify(11), NodeHealth::Overdue);
    assert_eq!(heartbeat.classify(749), NodeHealth::Overdue);
    assert_eq!(heartbeat.classify(750), NodeHealth::Unhealthy);
    assert_eq!(heartbeat.classify(999), NodeHealth::Unhealthy);
    assert_eq!(heartbeat.classify(1000), NodeHealth::Terminated);
    assert_eq!(heartbeat.classify(u64::MAX), NodeHealth::Terminated);
}

#[test]
fn round_pings_the_living_and_names_the_rest() {
    let mut heartbeat = Heartbeat::new(config());
    heartbeat.watch(1, 0);
    heartbeat.watch(2, 0);
    heartbeat.watch(3, 0);
    heartbeat.on_pong(1, 900);
    heartbeat.on_pong(2, 200);
    let round = heartbeat.tick(1000);
    assert_eq!(round.ping, vec![1, 2]);
    assert_eq!(round.unhealthy, vec![2]);
    assert_eq!(round.terminated, vec![3]);
    let round = heartbeat.tick(1200);
    assert_eq!(round.ping, vec![1]);
    assert!(round.unhealthy.is_empty());
    assert_eq!(round.terminated, vec![2]);
}

#[test]
fn node_that_says_farewell_is_terminated_at_once() {
    let mut heartbeat = Heartbeat::new(config());
    heartbeat.watch(1, 100);
    heartbeat.watch(2, 100);
    heartbeat.on_node_terminated(NodeTerminated(2));
    let round = heartbeat.tick(100);
    assert_eq!(round.ping, vec![1]);
    assert_eq!(round.terminated, vec![2]);
    assert!(round.unhealthy.is_empty());
}

#[test]
fn pong_from_the_future_counts_as_healthy() {
    let mut heartbeat = Heartbeat::new(config());
    heartbeat.watch(1, 5000);
    let round = heartbeat.tick(10);
    assert_eq!(round.ping, vec![1]);
    assert!(round.terminated.is_empty());
}
