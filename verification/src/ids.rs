//! Identifiers shared by every command.

use vstd::prelude::*;

verus! {

/// Number of a shard within its collection.
pub type ShardId = u32;

/// Number of a node of the cluster.
pub type PeerId = u64;

/// Name of a collection: unique across the cluster, case-sensitive, never empty.
pub type CollectionId = String;

} // verus!
