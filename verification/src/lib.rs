//! Commands that change the cluster-wide metadata of a collection store, and
//! the rules by which a single sequential applier carries them out.
//!
//! The commands are plain values: [`CollectionMetaOperations`] is the closed
//! set that the replicated log carries. A command is judged before it is
//! logged ([`CollectionMetaOperations::validate`]); what it does to the
//! metadata is decided when it is applied: by [`CollectionRegistry`] for the
//! names of the collections, by [`AliasNamespace`] for the aliases and by
//! [`ShardRegistry`] for the replicas and the transfers.

pub mod alias_namespace;
pub mod alias_ops;
pub mod collection_ops;
pub mod collection_registry;
pub mod config;
pub mod ids;
mod keyed;
pub mod meta_ops;
pub mod replica_set;
pub mod shard_distribution;
pub mod shard_registry;
pub mod shard_transfer;
pub mod validation;

pub use alias_namespace::{AliasBatchError, AliasError, AliasNamespace};
pub use alias_ops::{
    AliasActionParts, AliasOperations, AliasShapeError, ChangeAliasesOperation, CreateAlias,
    CreateAliasOperation, DeleteAlias, DeleteAliasOperation, RenameAlias, RenameAliasOperation,
};
pub use collection_ops::{
    CreateCollection, CreateCollectionOperation, DeleteCollectionOperation,
    DistributionAlreadySet, InitFrom, UpdateCollection, UpdateCollectionOperation,
};
pub use collection_registry::{CollectionRegistry, CreateCollectionError};
pub use ids::{CollectionId, PeerId, ShardId};
pub use meta_ops::{CollectionMetaOperations, SetShardReplicaState, ShardTransferOperations};
pub use replica_set::{Change, ReplicaState};
pub use shard_distribution::ShardDistributionProposal;
pub use shard_registry::{ReplicaUpdate, ShardRegistry, TransferError};
pub use shard_transfer::{ShardTransfer, ShardTransferKey};
pub use validation::ValidationError;
