//! The closed set of commands that the replicated log carries.

use vstd::prelude::*;
use crate::alias_ops::ChangeAliasesOperation;
use crate::collection_ops::{
    CreateCollectionOperation, DeleteCollectionOperation, UpdateCollectionOperation,
};
use crate::ids::{CollectionId, PeerId, ShardId};
use crate::replica_set::ReplicaState;
use crate::shard_transfer::{ShardTransfer, ShardTransferKey};
use crate::validation::ValidationError;

verus! {

/// The three messages of a shard movement.
#[derive(Debug, PartialEq, Eq, Hash, Clone)]
pub enum ShardTransferOperations {
    /// Begin to move the shard from the source to the destination.
    Start(ShardTransfer),
    /// The movement that was started is complete.
    Finish(ShardTransfer),
    /// Cancel the movement that the key addresses.
    Abort {
        transfer: ShardTransferKey,
        /// Why, in words for an operator.
        reason: String,
    },
}

impl ShardTransferOperations {
    /// The key of the transfer that the message is about.
    pub open spec fn spec_key(&self) -> ShardTransferKey {
        match *self {
            ShardTransferOperations::Start(transfer) => transfer.spec_key(),
            ShardTransferOperations::Finish(transfer) => transfer.spec_key(),
            ShardTransferOperations::Abort { transfer, reason } => transfer,
        }
    }

    /// The key of the transfer that the message is about.
    #[verifier::when_used_as_spec(spec_key)]
    pub fn key(&self) -> (key: ShardTransferKey)
        ensures
            key == self.spec_key(),
    {
        match self {
            ShardTransferOperations::Start(transfer) => transfer.key(),
            ShardTransferOperations::Finish(transfer) => transfer.key(),
            ShardTransferOperations::Abort { transfer, reason } => *transfer,
        }
    }
}

/// Sets the state of shard replica
#[derive(Debug, PartialEq, Eq, Hash, Clone)]
pub struct SetShardReplicaState {
    pub collection_name: String,
    pub shard_id: ShardId,
    pub peer_id: PeerId,
    /// If `Active` then the replica is up to date and can receive updates and answer requests
    pub state: ReplicaState,
    /// If `Some` then check that the replica is in this state before changing it
    /// If `None` then the replica can be in any state
    /// This is useful for example when we want to make sure
    /// we only make transition from `Initializing` to `Active`, and not from `Dead` to `Active`.
    /// If `from_state` does not match the current state of the replica, then the operation will be dismissed.
    pub from_state: Option<ReplicaState>,
}

/// Enumeration of all possible collection update operations
#[derive(Debug, PartialEq, Eq, Hash, Clone)]
pub enum CollectionMetaOperations {
    CreateCollection(CreateCollectionOperation),
    UpdateCollection(UpdateCollectionOperation),
    DeleteCollection(DeleteCollectionOperation),
    ChangeAliases(ChangeAliasesOperation),
    TransferShard(CollectionId, ShardTransferOperations),
    SetShardReplicaState(SetShardReplicaState),
    /// Empty operation: it takes its place in the log and changes nothing.
    Nop { token: usize },
}

impl CollectionMetaOperations {
    /// The verdict on a command. Every collection that a command names has
    /// a name; beyond that each kind of command is judged by its own rules,
    /// and an empty operation is always in order.
    pub open spec fn spec_validate(self) -> Result<(), ValidationError> {
        match self {
            CollectionMetaOperations::CreateCollection(op) => op@.spec_validate(),
            CollectionMetaOperations::UpdateCollection(op) => op@.spec_validate(),
            CollectionMetaOperations::DeleteCollection(op) => op.spec_validate(),
            CollectionMetaOperations::ChangeAliases(op) => op.spec_validate(),
            CollectionMetaOperations::TransferShard(collection, _) => if collection@.len() == 0 {
                Err(ValidationError::EmptyCollectionName)
            } else {
                Ok(())
            },
            CollectionMetaOperations::SetShardReplicaState(op) => if op.collection_name@.len()
                == 0 {
                Err(ValidationError::EmptyCollectionName)
            } else {
                Ok(())
            },
            CollectionMetaOperations::Nop { token } => Ok(()),
        }
    }

    /// Judges a command before it may be logged.
    pub fn validate(&self) -> (verdict: Result<(), ValidationError>)
        ensures
            verdict == self.spec_validate(),
    {
        match self {
            CollectionMetaOperations::CreateCollection(op) => op.validate(),
            CollectionMetaOperations::UpdateCollection(op) => op.validate(),
            CollectionMetaOperations::DeleteCollection(op) => op.validate(),
            CollectionMetaOperations::ChangeAliases(op) => op.validate(),
            CollectionMetaOperations::TransferShard(collection, _) => {
                if collection.as_str().is_empty() {
                    Err(ValidationError::EmptyCollectionName)
                } else {
                    Ok(())
                }
            },
            CollectionMetaOperations::SetShardReplicaState(op) => {
                if op.collection_name.as_str().is_empty() {
                    Err(ValidationError::EmptyCollectionName)
                } else {
                    Ok(())
                }
            },
            CollectionMetaOperations::Nop { token } => Ok(()),
        }
    }
}

} // verus!
