//! A shard: the entities that live on it.
//!
//! A shard remembers the recipe of every entity that it has made, so that
//! the entity can be made again where the shard runs next.
use crate::actor::{Actor, ActorId, ActorRefErr, BoxedActorRef};
use crate::remote::cluster::sharding::host::RemoteEntityRequest;
use crate::remote::cluster::sharding::ShardId;
use crate::table::Table;
use vstd::prelude::*;
use vstd::string::StringExecFns;

verus! {

/// What a shard does with a request for an entity.
pub enum EntityAction {
    /// Hand the message to the entity.
    Forward { entity: BoxedActorRef, request: RemoteEntityRequest },
    /// Make the entity from the recipe that came with the request, put it
    /// under the shard, then hand it the message.
    Create { request: RemoteEntityRequest },
    /// Make the entity again from the recipe that the shard remembers, put
    /// it under the shard, then hand it the message.
    Recover { request: RemoteEntityRequest },
    /// There is no such entity and nothing to make it from.
    Fail { request: RemoteEntityRequest, error: ActorRefErr },
}

/// What a shard persists of an entity that it has made.
#[derive(Debug)]
pub struct StartEntity {
    pub actor_id: ActorId,
    pub recipe: Vec<u8>,
}

/// The entities of one shard.
pub struct Shard {
    shard_id: ShardId,
    entities: Table<BoxedActorRef>,
    recipes: Table<Vec<u8>>,
}

impl Actor for Shard {
    open spec fn type_tag() -> Seq<char> {
        "Shard"@
    }

    fn actor_type() -> (name: String) {
        String::from_str("Shard")
    }
}

/// What a shard with the entities `entities`, which remembers the recipes
/// `recipes`, does with `request`.
pub open spec fn entity_action(
    entities: Map<Seq<char>, BoxedActorRef>,
    recipes: Map<Seq<char>, Vec<u8>>,
    request: RemoteEntityRequest,
) -> EntityAction {
    if entities.contains_key(request.actor_id@) {
        EntityAction::Forward { entity: entities[request.actor_id@], request }
    } else if request.recipe.is_some() {
        EntityAction::Create { request }
    } else if recipes.contains_key(request.actor_id@) {
        EntityAction::Recover { request }
    } else {
        EntityAction::Fail { request, error: ActorRefErr::EntityNotFound }
    }
}

/// The recipes after the events of a journal, the later event winning
/// where two are for one entity.
pub open spec fn replayed(journal: Seq<StartEntity>) -> Map<Seq<char>, Vec<u8>>
    decreases journal.len(),
{
    if journal.len() == 0 {
        Map::empty()
    } else {
        replayed(journal.drop_last()).insert(journal.last().actor_id@, journal.last().recipe)
    }
}

impl Shard {
    /// The identifier of the shard.
    pub closed spec fn id(&self) -> ShardId {
        self.shard_id
    }

    /// The entities that run on the shard, by identifier.
    pub closed spec fn entities(&self) -> Map<Seq<char>, BoxedActorRef> {
        self.entities.map()
    }

    /// The recipes that the shard remembers, by the identifier of the
    /// entity.
    pub closed spec fn recipes(&self) -> Map<Seq<char>, Vec<u8>> {
        self.recipes.map()
    }

    /// A shard without entities that remembers nothing.
    pub fn new(shard_id: ShardId) -> (shard: Shard)
        ensures
            shard.id() == shard_id,
            shard.entities() == Map::<Seq<char>, BoxedActorRef>::empty(),
            shard.recipes() == Map::<Seq<char>, Vec<u8>>::empty(),
    {
        Shard { shard_id, entities: Table::new(), recipes: Table::new() }
    }

    /// A shard that starts again from what it had persisted: no entity
    /// runs yet, and the recipes of the journal are remembered.
    pub fn recover(shard_id: ShardId, journal: Vec<StartEntity>) -> (shard: Shard)
        ensures
            shard.id() == shard_id,
            shard.entities() == Map::<Seq<char>, BoxedActorRef>::empty(),
            shard.recipes() == replayed(journal@),
    {
        let mut shard = Shard::new(shard_id);
        let ghost all = journal@;
        let mut events = journal;
        let n = events.len();
        let mut k: usize = 0;
        while events.len() > 0
            invariant
                n == all.len(),
                k + events@.len() == all.len(),
                events@ == all.skip(k as int),
                shard.shard_id == shard_id,
                shard.entities() == Map::<Seq<char>, BoxedActorRef>::empty(),
                shard.recipes() == replayed(all.take(k as int)),
            decreases events.len(),
        {
            let event = events.remove(0);
            proof {
                assert(event == all[k as int]);
                assert(events@ =~= all.skip(k as int + 1));
                assert(all.take(k as int + 1).drop_last() == all.take(k as int));
                assert(all.take(k as int + 1).last() == all[k as int]);
            }
            shard.recipes.insert(event.actor_id, event.recipe);
            k += 1;
        }
        proof {
            assert(all.take(k as int) == all);
        }
        shard
    }

    /// Decides what to do with a request for an entity.
    pub fn handle_request(&self, request: RemoteEntityRequest) -> (action: EntityAction)
        ensures
            action == entity_action(self.entities(), self.recipes(), request),
    {
        match self.entities.get(request.actor_id.as_str()) {
            Some(entity) => EntityAction::Forward { entity: entity.clone(), request },
            None => if request.recipe.is_some() {
                EntityAction::Create { request }
            } else if self.recipes.contains_key(request.actor_id.as_str()) {
                EntityAction::Recover { request }
            } else {
                EntityAction::Fail { request, error: ActorRefErr::EntityNotFound }
            },
        }
    }

    /// The recipe that the shard remembers for an entity.
    pub fn recipe_of(&self, actor_id: &ActorId) -> (recipe: Option<&Vec<u8>>)
        ensures
            recipe == if self.recipes().contains_key(actor_id@) {
                Some(&self.recipes()[actor_id@])
            } else {
                None
            },
    {
        self.recipes.get(actor_id.as_str())
    }

    /// Puts an entity that was made from `recipe` under the shard, and
    /// remembers the recipe.
    pub fn entity_started(&mut self, entity: BoxedActorRef, recipe: Vec<u8>)
        ensures
            final(self).entities() == old(self).entities().insert(entity.id@, entity),
            final(self).recipes() == old(self).recipes().insert(entity.id@, recipe),
            final(self).id() == old(self).id(),
    {
        let id = entity.id.clone();
        self.recipes.insert(id.clone(), recipe);
        self.entities.insert(id, entity);
    }

    /// Forgets an entity that has terminated; its recipe is kept.
    pub fn entity_stopped(&mut self, actor_id: &ActorId) -> (known: bool)
        ensures
            final(self).entities() == old(self).entities().remove(actor_id@),
            final(self).recipes() == old(self).recipes(),
            final(self).id() == old(self).id(),
            known == old(self).entities().contains_key(actor_id@),
    {
        self.entities.remove(actor_id.as_str()).is_some()
    }
}

} // verus!
