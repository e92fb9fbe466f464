//! Sharding: entities spread over the nodes of a cluster.
//!
//! An entity belongs to the shard that its identifier hashes to. A
//! coordinator says which node hosts which shard; the host of a shard keeps
//! the entities of the shard alive.
pub mod coordinator;
pub mod host;
pub mod shard;

use std::collections::hash_map::DefaultHasher;
use std::hash::Hasher;
use vstd::prelude::*;
use vstd::std_specs::hash::DefaultHasherAdditionalSpecFns;
use vstd::utf8::encode_utf8;

verus! {

/// Identifier of a shard.
pub type ShardId = u32;

/// The number of shards of a sharding that was not told otherwise.
pub const DEFAULT_SHARD_COUNT: u32 = 1000;

/// The hash of an entity identifier: what the standard hasher makes of the
/// bytes of the text.
pub open spec fn entity_hash(entity_id: Seq<char>) -> u64 {
    DefaultHasher::spec_finish(seq![encode_utf8(entity_id)])
}

/// The shard of an entity among `shard_count` shards.
pub open spec fn spec_shard_of(entity_id: Seq<char>, shard_count: u32) -> ShardId {
    (entity_hash(entity_id) % (shard_count as u64)) as u32
}

/// The shard of an entity: the hash of its identifier modulo the number of
/// shards. The shard depends on nothing else, so every node that is
/// configured with the same number of shards finds the same one.
pub fn shard_of(entity_id: &str, shard_count: u32) -> (shard: ShardId)
    requires
        shard_count > 0,
    ensures
        shard == spec_shard_of(entity_id@, shard_count),
        shard < shard_count,
{
    let mut hasher = DefaultHasher::new();
    hasher.write(entity_id.as_bytes());
    let hash: u64 = hasher.finish();
    (hash % (shard_count as u64)) as u32
}

} // verus!
