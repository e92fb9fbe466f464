use coerce::actor::system::ActorSystem;
use coerce::actor::{ActorRefErr, LocalActorRef};
use coerce::remote::cluster::node::{RemoteNode, Timestamp};
use coerce::remote::heartbeat::HeartbeatConfig;
use coerce::remote::net::client::receive::{
    nodes_from, read_handshake, read_identity, ClientAction, ClientMessageReceiver,
};
use coerce::remote::net::client::{
    client_handshake, ClientWrite, ClientWriteAction, RegisterClient, RemoteClientRegistry,
};
use coerce::remote::net::proto::ClientType;
use coerce::remote::net::message::{ClientEvent, SessionEvent};
use coerce::remote::net::proto;
use coerce::remote::net::proto::{ClientErr, ClientHandshake, ClientResult, PingEvent, PongEvent};
use coerce::remote::net::server::session::{send_result, Discarded};
use coerce::remote::system::{RemoteActorSystem, RemoteActors, RemoteSystemConfig};
use coerce::remote::RemoteResponse;

const ID: u128 = 0x550e8400_e29b_41d4_a716_446655440000;
const ID_TEXT: &str = "550e8400-e29b-41d4-a716-446655440000";
const NOW: Timestamp = Timestamp { seconds: 42, nanos: 7 };

fn system() -> RemoteActorSystem<u32> {
    RemoteActorSystem::new(
        2,
        ActorSystem::new(),
        Timestamp { seconds: 1, nanos: 0 },
        RemoteSystemConfig {
            node_tag: "node-2".to_string(),
            actor_types: vec![],
            handler_types: vec![],
            heartbeat_config: HeartbeatConfig {
                interval: 500,
                ping_timeout: 10,
                unhealthy_node_heartbeat_timeout: 750,
                terminated_node_heartbeat_timeout: 1000,
            },
        },
        RemoteActors {
            registry: LocalActorRef::new("registry".to_string(), None),
            clients: LocalActorRef::new("clients".to_string(), None),
            discovery: LocalActorRef::new("discovery".to_string(), None),
            heartbeat: LocalActorRef::new("heartbeat".to_string(), None),
            mediator: None,
        },
    )
}

fn receiver() -> ClientMessageReceiver<&'static str> {
    ClientMessageReceiver::new(
        LocalActorRef::new("client-1".to_string(), None),
        "identity-channel",
        "127.0.0.1:31101".to_string(),
    )
}

fn wire(id: u64, started: Option<i64>) -> proto::RemoteNode {
    proto::RemoteNode {
        node_id: id,
        addr: format!("127.0.0.1:3{}101", id),
        tag: format!("node-{}", id),
        node_started_at: started.map(|seconds| Timestamp { seconds, nanos: 0 }),
    }
}

fn identity(capabilities: Option<proto::SystemCapabilities>) -> proto::NodeIdentity {
    proto::NodeIdentity {
        node_id: 1,
        node_tag: "node-1".to_string(),
        application_version: "pkg_version=0.1.0,protocol_version=1".to_string(),
        addr: "127.0.0.1:31101".to_string(),
        node_started_at: Some(Timestamp { seconds: 10, nanos: 1 }),
        peers: vec![wire(1, Some(10)), wire(3, None)],
        capabilities,
    }
}

#[test]
fn identity_goes_to_the_waiting_channel_once() {
    let mut sys = system();
    let mut receiver = receiver();
    let capabilities = proto::SystemCapabilities {
        actors: vec!["TestActor".to_string()],
        messages: vec!["GetStatusRequest".to_string()],
    };
    match receiver.on_receive(ClientEvent::Identity(identity(Some(capabilities))), &mut sys, NOW) {
        ClientAction::Identified { identity_sender, identity } => {
            assert_eq!(identity_sender, "identity-channel");
            assert_eq!(identity.node.id, 1);
            assert_eq!(identity.node.addr, "127.0.0.1:31101");
            assert_eq!(identity.node.tag, "node-1");
            assert_eq!(identity.node.node_started_at, Some(Timestamp { seconds: 10, nanos: 1 }));
            let peers: Vec<u64> = identity.peers.iter().map(|p| p.id).collect();
            assert_eq!(peers, vec![1, 3]);
            assert_eq!(identity.peers[1].addr, "127.0.0.1:33101");
            assert_eq!(identity.capabilities.actors, vec!["TestActor".to_string()]);
            assert_eq!(identity.capabilities.messages, vec!["GetStatusRequest".to_string()]);
        }
        _ => panic!("identified"),
    }
    assert!(matches!(
        receiver.on_receive(ClientEvent::Identity(identity(None)), &mut sys, NOW),
        ClientAction::Nothing
    ));
}

#[test]
fn identity_without_capabilities_offers_nothing() {
    let read = read_identity(identity(None));
    assert!(read.capabilities.actors.is_empty());
    assert!(read.capabilities.messages.is_empty());
}

#[test]
fn handshake_is_acknowledged_without_the_server_itself() {
    let mut sys = system();
    let mut receiver = receiver();
    let frame = ClientHandshake {
        node_id: 1,
        node_tag: "node-1".to_string(),
        node_started_at: None,
        nodes: vec![wire(1, None), wire(2, Some(5)), wire(1, Some(3)), wire(3, None)],
    };
    match receiver.on_receive(ClientEvent::Handshake(frame), &mut sys, NOW) {
        ClientAction::Acknowledge(ack) => {
            assert_eq!(ack.node_id, 1);
            assert_eq!(ack.node_tag, "node-1");
            assert_eq!(ack.node_started_at, NOW);
            let known: Vec<u64> = ack.known_nodes.iter().map(|n| n.id).collect();
            assert_eq!(known, vec![2, 3]);
            assert_eq!(ack.known_nodes[0].node_started_at, Some(Timestamp { seconds: 5, nanos: 0 }));
        }
        _ => panic!("acknowledge"),
    }
    let frame = ClientHandshake {
        node_id: 1,
        node_tag: "node-1".to_string(),
        node_started_at: Some(Timestamp { seconds: 3, nanos: 0 }),
        nodes: vec![],
    };
    let ack = read_handshake(frame, NOW);
    assert_eq!(ack.node_started_at, Timestamp { seconds: 3, nanos: 0 });
    assert!(ack.known_nodes.is_empty());
}

#[test]
fn listed_nodes_become_records() {
    let listed = vec![wire(1, None), wire(2, Some(2))];
    let all: Vec<RemoteNode> = nodes_from(&listed, None);
    assert_eq!(all.len(), 2);
    assert_eq!(all[1].tag, "node-2");
    assert_eq!(nodes_from(&listed, Some(2)).len(), 1);
    assert_eq!(nodes_from(&listed, Some(9)).len(), 2);
    let one = RemoteNode::from(wire(7, Some(1)));
    assert_eq!((one.id, one.addr.as_str(), one.tag.as_str()), (7, "127.0.0.1:37101", "node-7"));
    let of_identity = RemoteNode::from(&identity(None));
    assert_eq!(of_identity.id, 1);
    assert_eq!(of_identity.tag, "node-1");
    assert_eq!(of_identity.addr, "127.0.0.1:31101");
}

#[test]
fn result_error_and_pong_complete_their_requests() {
    let mut sys = system();
    let mut receiver = receiver();
    sys.push_request(ID, 1);
    sys.push_request(ID + 1, 2);
    sys.push_request(ID + 2, 3);
    let result = ClientEvent::Result(ClientResult { message_id: ID_TEXT.to_string(), result: vec![9] });
    match receiver.on_receive(result, &mut sys, NOW) {
        ClientAction::Respond { res_tx, response: RemoteResponse::Reply(bytes) } => {
            assert_eq!(res_tx, 1);
            assert_eq!(bytes, vec![9]);
        }
        _ => panic!("reply"),
    }
    let failure = ClientEvent::Error(ClientErr {
        message_id: "550e8400-e29b-41d4-a716-446655440001".to_string(),
        error: ActorRefErr::NodeUnreachable,
    });
    match receiver.on_receive(failure, &mut sys, NOW) {
        ClientAction::Respond { res_tx, response: RemoteResponse::Error(error) } => {
            assert_eq!(res_tx, 2);
            assert_eq!(error, ActorRefErr::NodeUnreachable);
        }
        _ => panic!("error"),
    }
    let pong = || ClientEvent::Pong(PongEvent { message_id: "550e8400-e29b-41d4-a716-446655440002".to_string() });
    match receiver.on_receive(pong(), &mut sys, NOW) {
        ClientAction::Pong { res_tx, pong } => {
            assert_eq!(res_tx, 3);
            assert_eq!(pong.message_id, "550e8400-e29b-41d4-a716-446655440002");
        }
        _ => panic!("pong"),
    }
    assert!(matches!(
        receiver.on_receive(pong(), &mut sys, NOW),
        ClientAction::Discard(Discarded::UnknownRequest)
    ));
    assert_eq!(sys.inflight_remote_request_count(), 0);
}

#[test]
fn ping_and_malformed_events_complete_nothing() {
    let mut sys = system();
    let mut receiver = receiver();
    sys.push_request(ID, 1);
    let ping = ClientEvent::Ping(PingEvent { message_id: ID_TEXT.to_string(), node_id: 1, system_terminated: false });
    assert!(matches!(receiver.on_receive(ping, &mut sys, NOW), ClientAction::Nothing));
    let result = ClientEvent::Result(ClientResult { message_id: "nope".to_string(), result: vec![] });
    assert!(matches!(
        receiver.on_receive(result, &mut sys, NOW),
        ClientAction::Discard(Discarded::MalformedMessageId)
    ));
    let pong = ClientEvent::Pong(PongEvent { message_id: "".to_string() });
    assert!(matches!(
        receiver.on_receive(pong, &mut sys, NOW),
        ClientAction::Discard(Discarded::MalformedMessageId)
    ));
    assert_eq!(sys.inflight_remote_request_count(), 1);
}

#[test]
fn result_written_by_a_session_finds_its_request() {
    let mut sys = system();
    let mut receiver = receiver();
    for n in 0..100u128 {
        sys.push_request(ID + n, n as u32);
    }
    for n in (0..100u128).rev() {
        let event = send_result(ID + n, vec![n as u8], 5).1;
        match receiver.on_receive(event, &mut sys, NOW) {
            ClientAction::Respond { res_tx, response: RemoteResponse::Reply(bytes) } => {
                assert_eq!(res_tx, n as u32);
                assert_eq!(bytes, vec![n as u8]);
            }
            _ => panic!("reply {}", n),
        }
    }
    assert_eq!(sys.inflight_remote_request_count(), 0);
}

#[test]
fn receiver_closes_and_reports_the_end_of_the_stream() {
    let mut receiver = receiver();
    assert!(!receiver.should_close());
    receiver.close();
    assert!(receiver.should_close());
    let (client, _) = receiver.on_close();
    assert_eq!(client.id, "client-1");
}

#[test]
fn event_for_a_node_is_forwarded_retried_or_failed() {
    let mut registry = RemoteClientRegistry::new();
    let write = || ClientWrite(3, SessionEvent::Raft);
    assert!(matches!(registry.handle_write(write(), false), ClientWriteAction::Retry(ClientWrite(3, _))));
    match registry.handle_write(write(), true) {
        ClientWriteAction::Fail { error, .. } => assert_eq!(error, ActorRefErr::NodeUnreachable),
        _ => panic!("fail"),
    }
    registry.handle_register(RegisterClient(3, LocalActorRef::new("client-3".to_string(), None)));
    for retried in [false, true] {
        match registry.handle_write(write(), retried) {
            ClientWriteAction::Forward { client, .. } => assert_eq!(client.id, "client-3"),
            _ => panic!("forward"),
        }
    }
    assert!(registry.remove_client(3));
    assert!(!registry.remove_client(3));
    assert!(matches!(registry.handle_write(write(), false), ClientWriteAction::Retry(_)));
}

#[test]
fn request_is_registered_under_a_fresh_id_and_answered() {
    let mut sys = system();
    let mut receiver = receiver();
    let first = sys.create_request(
        "GetStatusRequest".to_string(),
        "a1".to_string(),
        vec![1, 2],
        Some(7),
        "trace".to_string(),
    );
    let second = sys.create_request(
        "SetStatusRequest".to_string(),
        "a1".to_string(),
        vec![],
        None,
        "".to_string(),
    );
    assert_eq!(first.handler_type, "GetStatusRequest");
    assert_eq!(first.actor_id, "a1");
    assert_eq!(first.message, vec![1, 2]);
    assert_eq!(first.trace_id, "trace");
    assert_eq!(first.origin_node_id, 2);
    assert!(first.requires_response);
    assert!(!second.requires_response);
    assert_ne!(first.message_id, second.message_id);
    assert_eq!(first.message_id.len(), 36);
    assert_eq!(sys.inflight_remote_request_count(), 1);
    let reply = ClientEvent::Result(ClientResult { message_id: first.message_id.clone(), result: vec![3] });
    assert!(matches!(
        receiver.on_receive(reply, &mut sys, NOW),
        ClientAction::Respond { res_tx: 7, .. }
    ));
    let reply = ClientEvent::Result(ClientResult { message_id: second.message_id, result: vec![3] });
    assert!(matches!(
        receiver.on_receive(reply, &mut sys, NOW),
        ClientAction::Discard(Discarded::UnknownRequest)
    ));
}

#[test]
fn client_sends_its_identity_and_members_in_the_handshake() {
    let sys = system();
    let members = vec![
        RemoteNode::new(2, "127.0.0.1:32101".to_string(), "node-2".to_string(), None),
        RemoteNode::new(3, "127.0.0.1:33101".to_string(), "node-3".to_string(), Some(NOW)),
    ];
    let handshake = client_handshake(&sys, &members, ClientType::Worker, "trace-1".to_string());
    assert_eq!(handshake.node_id, 2);
    assert_eq!(handshake.node_tag, "node-2");
    assert!(handshake.token.is_empty());
    assert_eq!(handshake.client_type, ClientType::Worker);
    assert_eq!(handshake.trace_id, "trace-1");
    assert_eq!(handshake.node_started_at, Some(Timestamp { seconds: 1, nanos: 0 }));
    let listed: Vec<(u64, String, Option<Timestamp>)> =
        handshake.nodes.iter().map(|n| (n.node_id, n.addr.clone(), n.node_started_at)).collect();
    assert_eq!(
        listed,
        vec![
            (2, "127.0.0.1:32101".to_string(), None),
            (3, "127.0.0.1:33101".to_string(), Some(NOW))
        ]
    );
    assert_eq!(
        client_handshake(&sys, &vec![], ClientType::Client, String::new()).client_type,
        ClientType::Client
    );
}

#[test]
fn ping_is_registered_and_its_pong_completes_it() {
    let mut sys = system();
    let mut receiver = receiver();
    let ping = sys.create_ping(11);
    assert_eq!(ping.node_id, 2);
    assert!(!ping.system_terminated);
    assert_eq!(ping.message_id.len(), 36);
    assert_eq!(sys.inflight_remote_request_count(), 1);
    let pong = ClientEvent::Pong(PongEvent { message_id: ping.message_id.clone() });
    match receiver.on_receive(pong, &mut sys, NOW) {
        ClientAction::Pong { res_tx, pong } => {
            assert_eq!(res_tx, 11);
            assert_eq!(pong.message_id, ping.message_id);
        }
        _ => panic!("pong"),
    }
    assert_eq!(sys.inflight_remote_request_count(), 0);
}

#[test]
fn request_and_ping_carry_the_text_of_the_given_id() {
    let mut sys = system();
    let request = sys.request_with_id(
        ID,
        "GetStatusRequest".to_string(),
        "a1".to_string(),
        vec![7],
        Some(1),
        "trace".to_string(),
    );
    assert_eq!(request.message_id, ID_TEXT);
    assert_eq!(request.handler_type, "GetStatusRequest");
    assert_eq!(request.actor_id, "a1");
    assert_eq!(request.message, vec![7]);
    assert_eq!(request.origin_node_id, 2);
    assert!(request.requires_response);
    let notified = sys.request_with_id(ID + 1, "h".to_string(), "a".to_string(), vec![], None, "".to_string());
    assert_eq!(notified.message_id, "550e8400-e29b-41d4-a716-446655440001");
    assert!(!notified.requires_response);
    let ping = sys.ping_with_id(ID + 2, 3);
    assert_eq!(ping.message_id, "550e8400-e29b-41d4-a716-446655440002");
    assert_eq!(ping.node_id, 2);
    assert!(!ping.system_terminated);
    assert_eq!(sys.inflight_remote_request_count(), 2);
    assert_eq!(sys.pop_request(ID + 1), None);
    let (failed, response) = sys.fail_requests(&vec![ID + 2, ID + 9, ID]);
    let waiting: Vec<u32> = failed.into_iter().map(|r| r.res_tx).collect();
    assert_eq!(waiting, vec![3, 1]);
    assert!(matches!(response, RemoteResponse::Error(ActorRefErr::NodeUnreachable)));
    assert_eq!(sys.inflight_remote_request_count(), 0);
}
