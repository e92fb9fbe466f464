use coerce::actor::context::{ActorContext, ActorStatus};
use coerce::actor::message::{ActorMessage, Handler, Message, MessageWrapErr};
use coerce::actor::system::ActorSystem;
use coerce::actor::{Actor, ActorRefErr, BoxedActorRef, LocalActorRef};
use std::collections::HashMap;
use coerce::remote::cluster::node::{RemoteNode, Timestamp};
use coerce::remote::cluster::registry::RemoteRegistry;
use coerce::remote::cluster::sharding::coordinator::{
    AllocateShardResult, ShardCoordinator, ShardHostState, ShardHostStatus,
};
use coerce::remote::cluster::sharding::host::{
    HostAction, RemoteEntityRequest, Resolved, ShardHost, StartShard,
};
use coerce::remote::cluster::sharding::shard::{EntityAction, Shard, StartEntity};
use coerce::remote::cluster::sharding::shard_of;
use coerce::remote::heartbeat::{Heartbeat, HeartbeatConfig, NodeTerminated};
use coerce::remote::net::client::receive::{ClientAction, ClientMessageReceiver};
use coerce::remote::net::codec::NetworkCodec;
use coerce::remote::net::message::{ClientEvent, SessionEvent};
use coerce::remote::net::proto;
use coerce::remote::net::client::client_handshake;
use coerce::remote::net::proto::{ClientType, PingEvent};
use coerce::remote::net::server::session::{
    session_handshake, PeerAddr, RemoteSession, SessionAction, SessionMessageReceiver,
    SessionWrite,
};
use coerce::remote::net::server::RemoteServerConfig;
use coerce::remote::system::{RemoteActorSystem, RemoteActors, RemoteSystemConfig};

const ADDR_A: &str = "127.0.0.1:31101";
const ADDR_B: &str = "127.0.0.1:32101";

fn heartbeat_config() -> HeartbeatConfig {
    HeartbeatConfig {
        interval: 500,
        ping_timeout: 10,
        unhealthy_node_heartbeat_timeout: 750,
        terminated_node_heartbeat_timeout: 1000,
    }
}

struct Node {
    system: RemoteActorSystem<u32>,
    registry: RemoteRegistry,
    addr: &'static str,
}

fn start(node_id: u64, addr: &'static str) -> Node {
    let system = RemoteActorSystem::new(
        node_id,
        ActorSystem::new(),
        Timestamp { seconds: 100 + node_id as i64, nanos: 0 },
        RemoteSystemConfig {
            node_tag: format!("node-{}", node_id),
            actor_types: vec!["TestActor".to_string()],
            handler_types: vec!["GetStatusRequest".to_string(), "SetStatusRequest".to_string()],
            heartbeat_config: heartbeat_config(),
        },
        RemoteActors {
            registry: LocalActorRef::new("registry".to_string(), None),
            clients: LocalActorRef::new("clients".to_string(), None),
            discovery: LocalActorRef::new("discovery".to_string(), None),
            heartbeat: LocalActorRef::new("heartbeat".to_string(), None),
            mediator: None,
        },
    );
    let mut registry = RemoteRegistry::new();
    registry.register_node(RemoteNode::new(
        node_id,
        addr.to_string(),
        format!("node-{}", node_id),
        Some(*system.started_at()),
    ));
    Node { system, registry, addr }
}

fn wire(nodes: Vec<RemoteNode>) -> Vec<proto::RemoteNode> {
    nodes
        .into_iter()
        .map(|n| proto::RemoteNode {
            node_id: n.id,
            addr: n.addr,
            tag: n.tag,
            node_started_at: n.node_started_at,
        })
        .collect()
}

fn ids(registry: &RemoteRegistry) -> Vec<u64> {
    let mut ids: Vec<u64> = registry.get_nodes().iter().map(|n| n.id).collect();
    ids.sort();
    ids
}

/// Lets `client` connect to `server` and go through the handshake; hands
/// back the reply of the server.
fn connect(client: &mut Node, server: &mut Node) -> proto::ClientHandshake {
    let config = RemoteServerConfig {
        listen_addr: server.addr.to_string(),
        external_node_addr: server.addr.to_string(),
        override_incoming_node_addr: false,
    };
    let peer = PeerAddr { ip: "127.0.0.1".to_string(), port: 40000 };
    let mut session = RemoteSession::new(1, peer.clone(), NetworkCodec::default(), config.clone());
    let mut started = session.started(&server.system, &server.registry.get_nodes(), "0.1.0");

    let mut receiver = ClientMessageReceiver::new(
        LocalActorRef::new("client".to_string(), None),
        "identity",
        server.addr.to_string(),
    );
    let now = Timestamp { seconds: 0, nanos: 0 };
    let identity = match receiver.on_receive(started.identity, &mut client.system, now) {
        ClientAction::Identified { identity, .. } => identity,
        _ => panic!("identity"),
    };
    assert_eq!(identity.node.id, server.system.node_id());

    let handshake = client_handshake(
        &client.system,
        &client.registry.get_nodes(),
        ClientType::Worker,
        "trace".to_string(),
    );
    let handshake = match started.receiver.on_receive(SessionEvent::Handshake(handshake), &mut server.system) {
        SessionAction::Handshake(handshake) => handshake,
        _ => panic!("handshake"),
    };
    let plan =
        session_handshake(&server.system, &mut server.registry, &handshake, 1, &peer, &config);
    started.receiver.on_handshake_sent();
    let reply = match plan.reply {
        SessionWrite(_, ClientEvent::Handshake(reply)) => reply,
        _ => panic!("reply"),
    };
    let copy = proto::ClientHandshake {
        node_id: reply.node_id,
        node_tag: reply.node_tag.clone(),
        node_started_at: reply.node_started_at,
        nodes: wire(coerce::remote::net::client::receive::nodes_from(&reply.nodes, None)),
    };
    match receiver.on_receive(ClientEvent::Handshake(reply), &mut client.system, now) {
        ClientAction::Acknowledge(ack) => {
            assert_eq!(ack.node_id, server.system.node_id());
            client.registry.register_node(identity.node);
            client.registry.register_nodes(ack.known_nodes);
        }
        _ => panic!("acknowledge"),
    }
    copy
}

#[test]
fn two_nodes_know_each_other_after_the_handshake() {
    let mut a = start(1, ADDR_A);
    let mut b = start(2, ADDR_B);
    connect(&mut b, &mut a);
    assert_eq!(ids(&a.registry), vec![1, 2]);
    assert_eq!(ids(&b.registry), vec![1, 2]);
    let addr_of = |registry: &RemoteRegistry, id: u64| {
        registry.get_nodes().into_iter().find(|n| n.id == id).map(|n| n.addr)
    };
    assert_eq!(addr_of(&a.registry, 2), Some(ADDR_B.to_string()));
    assert_eq!(addr_of(&b.registry, 1), Some(ADDR_A.to_string()));
}

#[test]
fn replayed_handshake_gets_the_same_reply() {
    let mut a = start(1, ADDR_A);
    let mut b = start(2, ADDR_B);
    let first = connect(&mut b, &mut a);
    let members = a.registry.get_nodes().len();
    let mut again = start(2, ADDR_B);
    let second = connect(&mut again, &mut a);
    assert_eq!(a.registry.get_nodes().len(), members);
    assert_eq!(first.node_id, second.node_id);
    assert_eq!(first.node_tag, second.node_tag);
    assert_eq!(first.node_started_at, second.node_started_at);
    let listed = |reply: &proto::ClientHandshake| -> Vec<(u64, String, String, Option<Timestamp>)> {
        reply.nodes.iter().map(|n| (n.node_id, n.addr.clone(), n.tag.clone(), n.node_started_at)).collect()
    };
    assert_eq!(listed(&first), listed(&second));
    assert_eq!(listed(&first).len(), 2);
}

#[derive(Debug, Clone, Copy, PartialEq, Eq)]
enum TestActorStatus {
    Inactive,
    Active,
}

#[derive(Debug, PartialEq, Eq)]
enum GetStatusResponse {
    Found(TestActorStatus),
    Missing,
}

struct TestActor {
    status: Option<TestActorStatus>,
    counter: i32,
}

impl Actor for TestActor {
    fn actor_type() -> String {
        "TestActor".to_string()
    }
}

struct SetStatusRequest {
    status: TestActorStatus,
}

impl Message for SetStatusRequest {
    type Result = ();

    fn as_bytes(&self) -> Result<Vec<u8>, MessageWrapErr> {
        Ok(vec![1, self.status as u8])
    }
}

struct GetStatusRequest;

impl Message for GetStatusRequest {
    type Result = GetStatusResponse;

    fn as_bytes(&self) -> Result<Vec<u8>, MessageWrapErr> {
        Ok(vec![2])
    }
}

impl Handler<SetStatusRequest> for TestActor {
    fn handle(&mut self, message: SetStatusRequest, _ctx: &mut ActorContext) {
        self.status = Some(message.status);
        self.counter += 1;
    }
}

impl Handler<GetStatusRequest> for TestActor {
    fn handle(&mut self, _message: GetStatusRequest, _ctx: &mut ActorContext) -> GetStatusResponse {
        match self.status {
            Some(status) => GetStatusResponse::Found(status),
            None => GetStatusResponse::Missing,
        }
    }
}

struct TestActorRecipe;

impl TestActorRecipe {
    fn write_to_bytes(&self) -> Option<Vec<u8>> {
        Some(vec![])
    }
}

/// What comes back from an entity.
#[derive(Debug, PartialEq, Eq)]
enum Reply {
    Unit,
    Status(GetStatusResponse),
}

/// Two or more nodes with their shard hosts, the coordinator of the
/// entity, and the journal that all of them share.
struct Cluster {
    coordinator: ShardCoordinator,
    hosts: HashMap<u64, ShardHost>,
    shards: HashMap<(u64, u32), Shard>,
    actors: HashMap<(u64, String), (TestActor, ActorContext)>,
    journal: Vec<(String, Vec<u8>)>,
}

impl Cluster {
    fn new() -> Cluster {
        Cluster {
            coordinator: ShardCoordinator::new("TestActor".to_string()),
            hosts: HashMap::new(),
            shards: HashMap::new(),
            actors: HashMap::new(),
            journal: Vec::new(),
        }
    }

    fn join(&mut self, node_id: u64) {
        self.coordinator.add_host(ShardHostState {
            node_id,
            node_tag: format!("node-{}", node_id),
            status: ShardHostStatus::Ready,
        });
        self.hosts.insert(node_id, ShardHost::new(node_id, 1000, 1024));
    }

    fn terminate(&mut self, node_id: u64) {
        self.hosts.remove(&node_id);
        self.shards.retain(|(node, _), _| *node != node_id);
        self.actors.retain(|(node, _), _| *node != node_id);
        self.coordinator.host_lost(node_id);
    }

    fn start_shard(&mut self, node_id: u64, shard_id: u32) {
        let journal = self
            .journal
            .iter()
            .map(|(actor_id, recipe)| StartEntity { actor_id: actor_id.clone(), recipe: recipe.clone() })
            .collect();
        self.shards.insert((node_id, shard_id), Shard::recover(shard_id, journal));
    }

    fn create(&mut self, node_id: u64, shard_id: u32, actor_id: &str, recipe: Vec<u8>) {
        let actor_ref: LocalActorRef<TestActor> = LocalActorRef::new(actor_id.to_string(), None);
        let boxed = BoxedActorRef::from_local(actor_ref);
        let ctx = ActorContext::new(None, ActorStatus::Started, boxed.clone());
        self.actors
            .insert((node_id, actor_id.to_string()), (TestActor { status: None, counter: 0 }, ctx));
        self.journal.push((actor_id.to_string(), recipe.clone()));
        self.shards.get_mut(&(node_id, shard_id)).expect("shard").entity_started(boxed, recipe);
    }

    fn run(&mut self, node_id: u64, request: RemoteEntityRequest) -> Result<Reply, ActorRefErr> {
        let (actor, ctx) =
            self.actors.get_mut(&(node_id, request.actor_id.clone())).ok_or(ActorRefErr::ActorUnavailable)?;
        match request.message.as_slice() {
            [1, status] => {
                let status =
                    if *status == 1 { TestActorStatus::Active } else { TestActorStatus::Inactive };
                let mut message: ActorMessage<TestActor, SetStatusRequest, ()> =
                    ActorMessage::new(SetStatusRequest { status }, Some(()));
                message.handle(actor, ctx).map(|_| Reply::Unit).ok_or(ActorRefErr::ResultChannelClosed)
            }
            [2] => {
                let mut message: ActorMessage<TestActor, GetStatusRequest, ()> =
                    ActorMessage::new(GetStatusRequest, Some(()));
                message
                    .handle(actor, ctx)
                    .map(|(_, status)| Reply::Status(status))
                    .ok_or(ActorRefErr::ResultChannelClosed)
            }
            _ => Err(ActorRefErr::DeserializationErr),
        }
    }

    fn deliver(&mut self, node_id: u64, shard_id: u32, request: RemoteEntityRequest) -> Result<Reply, ActorRefErr> {
        let action = self.shards.get(&(node_id, shard_id)).expect("shard").handle_request(request);
        match action {
            EntityAction::Forward { request, .. } => self.run(node_id, request),
            EntityAction::Create { request } => {
                let recipe = request.recipe.clone().expect("recipe");
                self.create(node_id, shard_id, &request.actor_id, recipe);
                self.run(node_id, request)
            }
            EntityAction::Recover { request } => {
                let recipe = self.shards[&(node_id, shard_id)]
                    .recipe_of(&request.actor_id)
                    .expect("recipe")
                    .clone();
                self.create(node_id, shard_id, &request.actor_id, recipe);
                self.run(node_id, request)
            }
            EntityAction::Fail { error, .. } => Err(error),
        }
    }

    /// Sends a request for an entity from the node `from`.
    fn send(&mut self, from: u64, request: RemoteEntityRequest) -> Result<Reply, ActorRefErr> {
        let action = self.hosts.get_mut(&from).ok_or(ActorRefErr::NodeUnreachable)?.handle_request(request);
        let (shard_id, allocate) = match action {
            HostAction::Deliver { shard_id, request } => return self.deliver(from, shard_id, request),
            HostAction::Wait { shard_id, allocate, overflow } => {
                assert!(overflow.is_none());
                (shard_id, allocate)
            }
        };
        let host = match self.coordinator.allocate_shard(allocate.expect("first request for the shard")) {
            AllocateShardResult::Allocated(node) | AllocateShardResult::Pending(node) => Some(node),
            AllocateShardResult::Start(node) => {
                if node != from {
                    self.hosts.get_mut(&node).expect("host").handle_start(StartShard { shard_id });
                }
                self.start_shard(node, shard_id);
                assert!(self.coordinator.shard_started(shard_id, node).is_some());
                Some(node)
            }
            AllocateShardResult::Unavailable => None,
        };
        let resolved = self.hosts.get_mut(&from).expect("host").handle_allocated(shard_id, host);
        let (node, requests) = match resolved {
            Resolved::StartLocal { requests, .. } => (from, requests),
            Resolved::ForwardTo { node_id, requests } => (node_id, requests),
            Resolved::Fail { error, .. } => return Err(error),
        };
        let mut last = Err(ActorRefErr::ResultChannelClosed);
        for request in requests {
            last = self.deliver(node, shard_id, request);
        }
        last
    }
}

fn request<M: Message>(entity: &str, recipe: Option<TestActorRecipe>, message: M) -> RemoteEntityRequest {
    RemoteEntityRequest {
        actor_id: entity.to_string(),
        message_type: "TestActor".to_string(),
        message: message.as_bytes().expect("message is transmittable"),
        recipe: recipe.map(|r| r.write_to_bytes().expect("recipe")),
    }
}

#[test]
fn test_shard_rebalancing_upon_node_termination() {
    let mut node_a = start(1, "127.0.0.1:31101");
    let mut node_b = start(2, "127.0.0.1:32101");
    connect(&mut node_b, &mut node_a);
    assert_eq!(ids(&node_a.registry), vec![1, 2]);
    assert_eq!(ids(&node_b.registry), vec![1, 2]);

    let mut cluster = Cluster::new();
    cluster.join(1);
    cluster.join(2);

    let _ = cluster.send(
        1,
        request("leon", Some(TestActorRecipe), SetStatusRequest { status: TestActorStatus::Active }),
    );
    let res = cluster.send(1, request("leon", Some(TestActorRecipe), GetStatusRequest)).expect("get status");

    let expected_status = TestActorStatus::Active;
    assert_eq!(res, Reply::Status(GetStatusResponse::Found(expected_status)));
    assert_eq!(cluster.coordinator.shard_host(shard_of("leon", 1000)), Some(1));

    // Node 1 shuts down and says so in its last ping; node 2 hears it and
    // takes the shards over.
    let mut heartbeat_b = Heartbeat::new(heartbeat_config());
    heartbeat_b.watch(1, 0);
    assert!(!node_a.system.create_ping(0).system_terminated);
    let stops = node_a.system.shutdown();
    assert_eq!(stops.scheduler.id, "ActorScheduler-0");
    assert_eq!(stops.remote.len(), 4);
    assert!(node_a.system.actor_system().is_terminated());
    let farewell: PingEvent = node_a.system.create_ping(0);
    assert_eq!(farewell.node_id, 1);
    assert!(farewell.system_terminated);
    let mut receiver = SessionMessageReceiver::new(
        5,
        PeerAddr { ip: "127.0.0.1".to_string(), port: 1 },
        RemoteServerConfig {
            listen_addr: "127.0.0.1:32101".to_string(),
            external_node_addr: "127.0.0.1:32101".to_string(),
            override_incoming_node_addr: false,
        },
    );
    match receiver.on_receive(SessionEvent::Ping(farewell), &mut node_b.system) {
        SessionAction::NodeTerminated(NodeTerminated(node)) => {
            heartbeat_b.on_node_terminated(NodeTerminated(node))
        }
        _ => panic!("node terminated"),
    }
    for node in heartbeat_b.tick(1).terminated {
        node_b.registry.terminate(node);
        cluster.terminate(node);
    }
    assert_eq!(ids(&node_b.registry), vec![2]);

    // A reference without a recipe does not create the entity anew; the
    // shard makes it again from what it remembers.
    let res_after_losing_node_1 = cluster.send(
        2,
        request("leon", None, SetStatusRequest { status: TestActorStatus::Active }),
    );
    assert_eq!(res_after_losing_node_1.is_ok(), true);
    assert_eq!(cluster.coordinator.shard_host(shard_of("leon", 1000)), Some(2));
    assert_eq!(
        cluster.send(2, request("leon", None, GetStatusRequest)),
        Ok(Reply::Status(GetStatusResponse::Found(TestActorStatus::Active)))
    );
    assert_eq!(
        cluster.send(2, request("noel", None, GetStatusRequest)),
        Err(ActorRefErr::EntityNotFound)
    );
    assert_eq!(cluster.send(1, request("leon", None, GetStatusRequest)), Err(ActorRefErr::NodeUnreachable));
}
