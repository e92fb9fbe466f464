use coerce::actor::context::{ActorContext, ActorStatus, StopCause};
use coerce::actor::scheduler::{
    ActorScheduler, ActorType, DeregisterActor, GetActor,
};
use coerce::actor::system::ActorSystem;
use coerce::actor::{
    Actor, ActorRef, ActorRefErr, BoxedActorRef, LocalActorRef, RemoteActorRef,
};

struct TestActor;

impl Actor for TestActor {
    fn actor_type() -> String {
        "TestActor".to_string()
    }
}

struct OtherActor;

impl Actor for OtherActor {
    fn actor_type() -> String {
        "OtherActor".to_string()
    }
}

#[test]
fn tracked_actor_is_found_by_id_and_kind() {
    let system = ActorSystem::new();
    let (_, mut scheduler) = ActorScheduler::new(*system.system_id());
    let outcome = system.new_actor::<TestActor>("a1".to_string(), ActorType::Registered, true);
    let actor_ref = outcome.result.expect("started");
    assert_eq!(actor_ref.id, "a1");
    assert_eq!(actor_ref.system_id, Some(*system.system_id()));
    let register = outcome.register.expect("registration");
    assert!(scheduler.handle_register(register).is_none());
    assert_eq!(scheduler.total_tracked_actors(), 1);

    let found = scheduler.handle_get(GetActor::<TestActor>::new("a1".to_string()));
    assert_eq!(found.expect("found").id, "a1");
    assert!(scheduler.handle_get(GetActor::<OtherActor>::new("a1".to_string())).is_none());
    assert!(scheduler.handle_get(GetActor::<TestActor>::new("a2".to_string())).is_none());

    assert!(scheduler.handle_deregister(DeregisterActor("a1".to_string())));
    assert!(!scheduler.handle_deregister(DeregisterActor("a1".to_string())));
    assert!(scheduler.handle_get(GetActor::<TestActor>::new("a1".to_string())).is_none());
}

#[test]
fn anonymous_actor_is_not_registered() {
    let system = ActorSystem::new();
    let outcome = system.new_actor::<TestActor>("anon".to_string(), ActorType::Anonymous, true);
    assert!(outcome.register.is_none());
    assert!(outcome.result.is_ok());
}

#[test]
fn actor_that_does_not_start_gives_start_channel_closed_and_is_not_registered() {
    let system = ActorSystem::new();
    let (_, scheduler) = ActorScheduler::new(*system.system_id());
    let outcome = system.new_actor::<TestActor>("a1".to_string(), ActorType::Registered, false);
    assert!(outcome.register.is_none());
    assert_eq!(outcome.result.err(), Some(ActorRefErr::StartChannelClosed));
    assert!(system.get_tracked_actor::<TestActor>("a1".to_string(), Some(&scheduler)).is_none());
    assert_eq!(scheduler.total_tracked_actors(), 0);
    let outcome = system.new_tracked_actor::<TestActor>(false);
    assert!(outcome.register.is_none());
    assert_eq!(outcome.result.err(), Some(ActorRefErr::StartChannelClosed));
    let outcome = system.new_anon_actor::<TestActor>(false);
    assert!(outcome.register.is_none());
    assert_eq!(outcome.result.err(), Some(ActorRefErr::StartChannelClosed));
}

#[test]
fn context_end_names_parent_and_cause() {
    let system = ActorSystem::new();
    let child: LocalActorRef<TestActor> = LocalActorRef::new("child".to_string(), None);
    let parent: LocalActorRef<TestActor> = LocalActorRef::new("parent".to_string(), None);
    let ctx = ActorContext::new(
        Some(system.handle()),
        ActorStatus::Started,
        BoxedActorRef::from_local(child),
    )
    .with_parent(Some(BoxedActorRef::from_local(parent)));
    let end = ctx.on_drop(system.is_terminated());
    let (parent_ref, child_id) = end.notify_parent.expect("parent");
    assert_eq!(parent_ref.id, "parent");
    assert_eq!(child_id, "child");
    assert!(end.stop_children.is_none());
    assert_eq!(end.cause, StopCause::Unexpected);
}

#[test]
fn actor_reference_is_local_or_remote() {
    let local: ActorRef<TestActor> = ActorRef::Local(LocalActorRef::new("a1".to_string(), Some(3)));
    let remote: ActorRef<TestActor> = ActorRef::Remote(RemoteActorRef::new("a2".to_string(), 7));
    assert!(local.is_local() && !local.is_remote());
    assert!(remote.is_remote() && !remote.is_local());
    assert_eq!(local.actor_id(), "a1");
    assert_eq!(remote.actor_id(), "a2");
    assert_eq!(local.node_id(), None);
    assert_eq!(remote.node_id(), Some(7));
    let unwrapped = local.unwrap_local();
    assert_eq!(unwrapped.id, "a1");
    assert_eq!(unwrapped.system_id, Some(3));
    let boxed = BoxedActorRef::from_local(unwrapped.clone());
    assert_eq!(boxed.actor_type, "TestActor");
    assert_eq!(boxed.actor_id(), "a1");
    assert!(boxed.downcast::<TestActor>().is_some());
    assert!(boxed.downcast::<OtherActor>().is_none());
    assert_eq!(unwrapped.actor_id(), "a1");
    let far = remote.unwrap_remote();
    assert_eq!((far.id.as_str(), far.node_id), ("a2", 7));
}
