use coerce::actor::context::{ActorContext, ActorStatus};
use coerce::actor::lifecycle::{ActorLoop, Delivery, Invocation};
use coerce::actor::message::{ActorMessage, Exec, Handler, Message};
use coerce::actor::system::ActorSystem;
use coerce::actor::{Actor, ActorRefErr, BoxedActorRef, LocalActorRef};

#[derive(Debug, Clone, Copy, PartialEq, Eq)]
enum TestActorStatus {
    Inactive,
    Active,
}

struct TestActor {
    status: Option<TestActorStatus>,
    counter: u32,
}

impl Actor for TestActor {
    fn actor_type() -> String {
        "TestActor".to_string()
    }
}

struct SetStatus(TestActorStatus);

impl Message for SetStatus {
    type Result = ();
}

struct GetStatus;

impl Message for GetStatus {
    type Result = Result<TestActorStatus, ()>;
}

impl Handler<SetStatus> for TestActor {
    fn handle(&mut self, message: SetStatus, _ctx: &mut ActorContext) {
        self.status = Some(message.0);
        self.counter += 1;
    }
}

impl Handler<GetStatus> for TestActor {
    fn handle(&mut self, _message: GetStatus, _ctx: &mut ActorContext) -> Result<TestActorStatus, ()> {
        self.status.ok_or(())
    }
}

fn context(id: &str) -> ActorContext {
    let actor_ref: LocalActorRef<TestActor> = LocalActorRef::new(id.to_string(), None);
    ActorContext::new(
        Some(ActorSystem::new().handle()),
        ActorStatus::Started,
        BoxedActorRef::from_local(actor_ref),
    )
}

#[test]
fn local_rpc_sets_and_gets_status() {
    let mut actor = TestActor { status: None, counter: 0 };
    let mut ctx = context("a1");
    let mut get: ActorMessage<TestActor, GetStatus, &str> = ActorMessage::new(GetStatus, Some("reply"));
    assert_eq!(get.handle(&mut actor, &mut ctx), Some(("reply", Err(()))));
    let mut set: ActorMessage<TestActor, SetStatus, &str> =
        ActorMessage::new(SetStatus(TestActorStatus::Active), Some("set-reply"));
    assert_eq!(set.handle(&mut actor, &mut ctx), Some(("set-reply", ())));
    let mut get: ActorMessage<TestActor, GetStatus, &str> = ActorMessage::new(GetStatus, Some("reply"));
    assert_eq!(get.handle(&mut actor, &mut ctx), Some(("reply", Ok(TestActorStatus::Active))));
    assert_eq!(actor.counter, 1);
}

#[test]
fn notified_message_is_handled_without_an_answer() {
    let mut actor = TestActor { status: None, counter: 0 };
    let mut ctx = context("a1");
    let mut set: ActorMessage<TestActor, SetStatus, &str> =
        ActorMessage::new(SetStatus(TestActorStatus::Inactive), None);
    assert_eq!(set.handle(&mut actor, &mut ctx), None);
    assert_eq!(actor.status, Some(TestActorStatus::Inactive));
}

#[test]
fn exec_carries_its_closure_to_the_actor() {
    let exec: Exec<_, TestActor, u32> = Exec::new(|actor: &mut TestActor| {
        actor.counter += 5;
        actor.counter
    });
    let mut actor = TestActor { status: None, counter: 1 };
    let mut func = exec.into_func();
    assert_eq!(func(&mut actor), 6);
    assert_eq!(func(&mut actor), 11);
}

#[test]
fn messages_are_delivered_in_send_order() {
    let mut actor_loop: ActorLoop<u32> = ActorLoop::new();
    assert_eq!(actor_loop.status(), ActorStatus::Starting);
    for n in 0..100u32 {
        assert!(actor_loop.send(Invocation::Message(n)).is_ok());
    }
    assert!(actor_loop.on_started(true).is_empty());
    assert_eq!(actor_loop.waiting(), 100);
    for n in 0..100u32 {
        match actor_loop.next() {
            Delivery::Handle(m) => assert_eq!(m, n),
            _ => panic!("message {}", n),
        }
        actor_loop.handled();
    }
    assert!(matches!(actor_loop.next(), Delivery::Idle));
}

#[test]
fn no_message_is_delivered_while_a_handler_runs() {
    let mut actor_loop: ActorLoop<&str> = ActorLoop::new();
    actor_loop.on_started(true);
    actor_loop.send(Invocation::Message("first")).unwrap();
    actor_loop.send(Invocation::Message("second")).unwrap();
    assert!(matches!(actor_loop.next(), Delivery::Handle("first")));
    for _ in 0..3 {
        assert!(matches!(actor_loop.next(), Delivery::Busy));
        assert_eq!(actor_loop.waiting(), 1);
    }
    actor_loop.send(Invocation::Stop).unwrap();
    assert!(matches!(actor_loop.next(), Delivery::Busy));
    actor_loop.handled();
    assert!(matches!(actor_loop.next(), Delivery::Handle("second")));
    assert!(matches!(actor_loop.next(), Delivery::Busy));
    actor_loop.handled();
    assert!(matches!(actor_loop.next(), Delivery::Stop { acknowledge: true }));
}

#[test]
fn stop_takes_effect_when_its_turn_comes() {
    let mut actor_loop: ActorLoop<u8> = ActorLoop::new();
    actor_loop.on_started(true);
    actor_loop.send(Invocation::Message(1)).unwrap();
    actor_loop.send(Invocation::ChildTerminated("child".to_string())).unwrap();
    actor_loop.send(Invocation::NotifyStop).unwrap();
    actor_loop.send(Invocation::Message(2)).unwrap();
    assert!(matches!(actor_loop.next(), Delivery::Handle(1)));
    actor_loop.handled();
    assert!(matches!(actor_loop.next(), Delivery::RemoveChild(id) if id == "child"));
    assert!(matches!(actor_loop.next(), Delivery::Stop { acknowledge: false }));
    assert_eq!(actor_loop.status(), ActorStatus::Stopping);
    assert!(matches!(actor_loop.next(), Delivery::Finished));
    assert!(actor_loop.send(Invocation::Message(3)).is_ok());
    let dropped = actor_loop.on_stopped();
    assert_eq!(dropped.len(), 2);
    assert!(matches!(dropped[0], Invocation::Message(2)));
    assert!(matches!(dropped[1], Invocation::Message(3)));
    assert_eq!(actor_loop.status(), ActorStatus::Stopped);
    assert_eq!(actor_loop.send(Invocation::Message(4)), Err(ActorRefErr::ActorUnavailable));
    assert_eq!(actor_loop.waiting(), 0);
    assert!(matches!(actor_loop.next(), Delivery::Finished));
}

#[test]
fn actor_that_fails_to_start_is_stopped_at_once() {
    let mut actor_loop: ActorLoop<u8> = ActorLoop::new();
    actor_loop.send(Invocation::Message(1)).unwrap();
    assert!(matches!(actor_loop.next(), Delivery::Finished));
    let dropped = actor_loop.on_started(false);
    assert_eq!(dropped.len(), 1);
    assert_eq!(actor_loop.status(), ActorStatus::Stopped);
    assert_eq!(actor_loop.send(Invocation::Stop), Err(ActorRefErr::ActorUnavailable));
}
