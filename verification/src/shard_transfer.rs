//! Description of one shard movement and the key that addresses it.

use vstd::prelude::*;
use crate::ids::{PeerId, ShardId};

verus! {

/// A shard movement from one peer to another.
#[derive(Debug, PartialEq, Eq, Hash, Clone, Copy, Structural)]
pub struct ShardTransfer {
    pub shard_id: ShardId,
    pub from: PeerId,
    pub to: PeerId,
    /// If this flag is true, the transfer is a synchronization of a replica:
    /// the source keeps the shard. If false, the shard moves away from the source.
    pub sync: bool,
}

/// What identifies a transfer within its collection: the shard, the source
/// and the destination. The collection itself travels beside the key.
#[derive(Debug, PartialEq, Eq, Hash, Clone, Copy, Structural)]
pub struct ShardTransferKey {
    pub shard_id: ShardId,
    pub from: PeerId,
    pub to: PeerId,
}

impl ShardTransfer {
    /// The key of this transfer, as a specification.
    pub open spec fn spec_key(&self) -> ShardTransferKey {
        ShardTransferKey { shard_id: self.shard_id, from: self.from, to: self.to }
    }

    /// The key that addresses this transfer.
    #[verifier::when_used_as_spec(spec_key)]
    pub fn key(&self) -> (key: ShardTransferKey)
        ensures
            key == self.spec_key(),
    {
        ShardTransferKey { shard_id: self.shard_id, from: self.from, to: self.to }
    }
}

impl ShardTransferKey {
    /// Whether this key addresses `transfer`.
    pub fn check(&self, transfer: &ShardTransfer) -> (matches: bool)
        ensures
            matches == (*self == transfer.spec_key()),
    {
        self.shard_id == transfer.shard_id && self.from == transfer.from && self.to == transfer.to
    }
}

} // verus!
