//! Lifecycle states of a shard replica, and changes to the set of replicas.

use vstd::prelude::*;
use crate::ids::{PeerId, ShardId};

verus! {

/// Readiness of one replica of a shard.
#[derive(Debug, PartialEq, Eq, Hash, Clone, Copy, Structural)]
pub enum ReplicaState {
    /// Up to date: receives updates and answers requests.
    Active,
    /// Failed for some reason; receives nothing.
    Dead,
    /// Being filled by a transfer; receives updates, answers no requests.
    Partial,
    /// The collection is being created.
    Initializing,
    /// Receives updates, answers no requests.
    Listener,
}

/// One change to the replica topology of a collection.
#[derive(Debug, PartialEq, Eq, Hash, Clone, Copy, Structural)]
pub enum Change {
    /// Drop the replica of the shard that the peer holds.
    Remove(ShardId, PeerId),
}

} // verus!
