//! The children that an actor has spawned and answers for.
use crate::actor::{Actor, ActorId, BoxedActorRef, LocalActorRef};
use crate::table::Table;
use vstd::prelude::*;

verus! {

/// The children of one actor, by identifier.
pub struct Supervised {
    children: Table<BoxedActorRef>,
}

impl Supervised {
    /// The children as a map from identifier to reference.
    pub closed spec fn children(&self) -> Map<Seq<char>, BoxedActorRef> {
        self.children.map()
    }

    /// The identifiers of the children in the order in which they came.
    pub closed spec fn child_ids(&self) -> Seq<Seq<char>> {
        self.children.keys()
    }

    /// No children.
    pub fn new() -> (supervised: Supervised)
        ensures
            supervised.children() == Map::<Seq<char>, BoxedActorRef>::empty(),
    {
        Supervised { children: Table::new() }
    }

    /// How many children there are.
    pub fn len(&self) -> (n: usize)
        ensures
            n == self.children().len(),
            n == self.child_ids().len(),
    {
        self.children.len()
    }

    /// The reference to the child `id`, whatever its kind.
    pub fn child_boxed(&self, id: &ActorId) -> (child: Option<BoxedActorRef>)
        ensures
            child == if self.children().contains_key(id@) {
                Some(self.children()[id@])
            } else {
                None
            },
    {
        match self.children.get(id.as_str()) {
            Some(child) => Some(child.clone()),
            None => None,
        }
    }

    /// The reference to the child `id`, where there is one and it is of
    /// kind `A`.
    pub fn child<A: Actor>(&self, id: &ActorId) -> (child: Option<LocalActorRef<A>>)
        ensures
            child.is_some() == (self.children().contains_key(id@) && self.children()[id@].is_a::<
                A,
            >()),
            child matches Some(r) ==> r.id == self.children()[id@].id && r.system_id
                == self.children()[id@].system_id,
    {
        match self.children.get(id.as_str()) {
            Some(child) => child.downcast::<A>(),
            None => None,
        }
    }

    /// Puts a child under supervision; a child already known by that
    /// identifier is replaced.
    pub fn attach_child_ref(&mut self, actor_ref: BoxedActorRef)
        ensures
            final(self).children() == old(self).children().insert(actor_ref.id@, actor_ref),
    {
        let id = actor_ref.id.clone();
        self.children.insert(id, actor_ref);
    }

    /// Forgets a child that has terminated.
    pub fn on_child_stopped(&mut self, id: &ActorId) -> (removed: Option<BoxedActorRef>)
        ensures
            final(self).children() == old(self).children().remove(id@),
            removed == if old(self).children().contains_key(id@) {
                Some(old(self).children()[id@])
            } else {
                None
            },
    {
        self.children.remove(id.as_str())
    }

    /// The children that are to be told to stop, in the order in which they
    /// came: every child, each once.
    pub fn stop_all(&self) -> (ids: Vec<ActorId>)
        ensures
            ids@.len() == self.child_ids().len(),
            forall|i: int| 0 <= i < ids@.len() ==> (#[trigger] ids@[i])@ == self.child_ids()[i],
            self.child_ids().no_duplicates(),
            forall|id: Seq<char>|
                self.children().contains_key(id) <==> self.child_ids().contains(id),
    {
        self.children.key_list()
    }
}

} // verus!
