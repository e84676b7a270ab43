//! Commands that create, update and delete a collection, with the two slots
//! that a planner fills before a command is logged.

use vstd::prelude::*;
use vstd::std_specs::convert::FromSpecImpl;
use crate::config::{
    is_zero, CollectionConfig, CollectionParamsDiff, HnswConfigDiff, OptimizersConfigDiff,
    QuantizationConfig, VectorsConfig, WalConfigDiff,
};
use crate::ids::CollectionId;
use crate::replica_set::Change;
use crate::shard_distribution::ShardDistributionProposal;
use crate::validation::ValidationError;

verus! {

/// Names the collection whose data a new collection starts from.
#[derive(Debug, PartialEq, Eq, Hash, Clone)]
pub struct InitFrom {
    pub collection: CollectionId,
}

/// Operation for creating new collection and (optionally) specify index params
#[derive(Debug, PartialEq, Eq, Hash, Clone)]
pub struct CreateCollection {
    /// Vector data config.
    /// It is possible to provide one config for single vector mode and list of configs for multiple vectors mode.
    pub vectors: VectorsConfig,
    /// Number of shards in collection.
    /// Default is 1 for standalone, otherwise equal to the number of nodes
    /// Minimum is 1
    pub shard_number: Option<u32>,
    /// Number of shards replicas.
    /// Default is 1
    /// Minimum is 1
    pub replication_factor: Option<u32>,
    /// Defines how many replicas should apply the operation for us to consider it successful.
    /// Increasing this number will make the collection more resilient to inconsistencies, but will
    /// also make it fail if not enough replicas are available.
    /// Does not have any performance impact.
    /// Minimum is 1
    pub write_consistency_factor: Option<u32>,
    /// If true - point's payload will not be stored in memory.
    /// It will be read from the disk every time it is requested.
    /// This setting saves RAM by (slightly) increasing the response time.
    /// Note: those payload values that are involved in filtering and are indexed - remain in RAM.
    pub on_disk_payload: Option<bool>,
    /// Custom params for HNSW index. If none - values from service configuration file are used.
    pub hnsw_config: Option<HnswConfigDiff>,
    /// Custom params for WAL. If none - values from service configuration file are used.
    pub wal_config: Option<WalConfigDiff>,
    /// Custom params for Optimizers.  If none - values from service configuration file are used.
    pub optimizers_config: Option<OptimizersConfigDiff>,
    /// Specify other collection to copy data from.
    pub init_from: Option<InitFrom>,
    /// Quantization parameters. If none - quantization is disabled.
    pub quantization_config: Option<QuantizationConfig>,
}

impl CreateCollection {
    /// The verdict on these parameters. The counts are judged first, in the
    /// order shards, replicas, write confirmations; then the vectors; then
    /// the name of the collection to copy from.
    pub open spec fn spec_validate(self) -> Result<(), ValidationError> {
        if self.shard_number == Some(0u32) {
            Err(ValidationError::ZeroShardNumber)
        } else if self.replication_factor == Some(0u32) {
            Err(ValidationError::ZeroReplicationFactor)
        } else if self.write_consistency_factor == Some(0u32) {
            Err(ValidationError::ZeroWriteConsistencyFactor)
        } else if self.vectors.spec_validate() is Err {
            self.vectors.spec_validate()
        } else if self.init_from matches Some(source) && source.collection@.len() == 0 {
            Err(ValidationError::EmptyCollectionName)
        } else {
            Ok(())
        }
    }

    /// The parameters that create a collection like the one `value`
    /// configures: every parameter that `value` has is set to that value, and
    /// nothing is copied from another collection.
    pub open spec fn like(value: CollectionConfig) -> Self {
        CreateCollection {
            vectors: value.params.vectors,
            shard_number: Some(value.params.shard_number),
            replication_factor: Some(value.params.replication_factor),
            write_consistency_factor: Some(value.params.write_consistency_factor),
            on_disk_payload: Some(value.params.on_disk_payload),
            hnsw_config: Some(value.hnsw_config.as_diff()),
            wal_config: Some(value.wal_config.as_diff()),
            optimizers_config: Some(value.optimizer_config.as_diff()),
            init_from: None,
            quantization_config: value.quantization_config,
        }
    }

    /// Judges the parameters before a command built on them may be logged.
    pub fn validate(&self) -> (verdict: Result<(), ValidationError>)
        ensures
            verdict == self.spec_validate(),
    {
        if is_zero(self.shard_number) {
            return Err(ValidationError::ZeroShardNumber);
        }
        if is_zero(self.replication_factor) {
            return Err(ValidationError::ZeroReplicationFactor);
        }
        if is_zero(self.write_consistency_factor) {
            return Err(ValidationError::ZeroWriteConsistencyFactor);
        }
        let vectors = self.vectors.validate();
        if vectors.is_err() {
            return vectors;
        }
        match &self.init_from {
            Some(source) => {
                if source.collection.as_str().is_empty() {
                    return Err(ValidationError::EmptyCollectionName);
                }
            },
            None => {},
        }
        Ok(())
    }
}

/// Use config of the existing collection to generate a create collection operation
/// for the new collection
impl From<CollectionConfig> for CreateCollection {
    fn from(value: CollectionConfig) -> (create: Self) {
        CreateCollection {
            vectors: value.params.vectors,
            shard_number: Some(value.params.shard_number),
            replication_factor: Some(value.params.replication_factor),
            write_consistency_factor: Some(value.params.write_consistency_factor),
            on_disk_payload: Some(value.params.on_disk_payload),
            hnsw_config: Some(HnswConfigDiff::from(value.hnsw_config)),
            wal_config: Some(WalConfigDiff::from(value.wal_config)),
            optimizers_config: Some(OptimizersConfigDiff::from(value.optimizer_config)),
            init_from: None,
            quantization_config: value.quantization_config,
        }
    }
}

impl FromSpecImpl<CollectionConfig> for CreateCollection {
    open spec fn obeys_from_spec() -> bool {
        true
    }

    open spec fn from_spec(value: CollectionConfig) -> Self {
        CreateCollection::like(value)
    }
}

/// The parameters taken from the configuration of a collection that exists
/// are accepted.
pub proof fn lemma_existing_config_validates(value: CollectionConfig)
    requires
        value.well_formed(),
    ensures
        CreateCollection::like(value).spec_validate() is Ok,
{
}

/// The planner tried to fill a slot that is filled already.
#[derive(Debug, PartialEq, Eq, Hash, Clone, Copy, Structural)]
pub struct DistributionAlreadySet;

/// Operation for creating new collection and (optionally) specify index params
#[derive(Debug, PartialEq, Eq, Hash, Clone)]
pub struct CreateCollectionOperation {
    pub collection_name: String,
    pub create_collection: CreateCollection,
    distribution: Option<ShardDistributionProposal>,
}

/// What a [`CreateCollectionOperation`] holds, the distribution slot included.
pub struct CreateCollectionOperationView {
    pub collection_name: Seq<char>,
    pub create_collection: CreateCollection,
    /// `None` while the slot is empty.
    pub distribution: Option<ShardDistributionProposal>,
}

impl View for CreateCollectionOperation {
    type V = CreateCollectionOperationView;

    closed spec fn view(&self) -> CreateCollectionOperationView {
        CreateCollectionOperationView {
            collection_name: self.collection_name@,
            create_collection: self.create_collection,
            distribution: self.distribution,
        }
    }
}

impl CreateCollectionOperationView {
    /// The verdict on this command: it names a collection, and its
    /// parameters are in order.
    pub open spec fn spec_validate(self) -> Result<(), ValidationError> {
        if self.collection_name.len() == 0 {
            Err(ValidationError::EmptyCollectionName)
        } else {
            self.create_collection.spec_validate()
        }
    }

    /// This command with `distribution` in its slot.
    pub open spec fn with_distribution(self, distribution: ShardDistributionProposal) -> Self {
        CreateCollectionOperationView { distribution: Some(distribution), ..self }
    }

    /// This command with its slot emptied.
    pub open spec fn without_distribution(self) -> Self {
        CreateCollectionOperationView { distribution: None, ..self }
    }
}

impl CreateCollectionOperation {
    /// A command with an empty distribution slot.
    pub fn new(collection_name: String, create_collection: CreateCollection) -> (op: Self)
        ensures
            op@ == (CreateCollectionOperationView {
                collection_name: collection_name@,
                create_collection,
                distribution: None,
            }),
    {
        Self { collection_name, create_collection, distribution: None }
    }

    /// The name of the collection to create.
    pub fn name(&self) -> (name: &String)
        ensures
            name@ == self@.collection_name,
    {
        &self.collection_name
    }

    /// Whether the planner has filled the slot.
    pub fn is_distribution_set(&self) -> (set: bool)
        ensures
            set == self@.distribution is Some,
    {
        self.distribution.is_some()
    }

    /// Hands out what the slot holds and leaves it empty.
    pub fn take_distribution(&mut self) -> (taken: Option<ShardDistributionProposal>)
        ensures
            taken == old(self)@.distribution,
            final(self)@ == old(self)@.without_distribution(),
    {
        self.distribution.take()
    }

    /// Fills the slot. The slot is filled once: the caller shows that it is
    /// empty.
    pub fn set_distribution(&mut self, distribution: ShardDistributionProposal)
        requires
            old(self)@.distribution is None,
        ensures
            final(self)@ == old(self)@.with_distribution(distribution),
    {
        self.distribution = Some(distribution);
    }

    /// Fills the slot if it is empty, and refuses otherwise: a plan that was
    /// attached is never replaced.
    pub fn try_set_distribution(&mut self, distribution: ShardDistributionProposal) -> (outcome:
        Result<(), DistributionAlreadySet>)
        ensures
            old(self)@.distribution is None ==> outcome is Ok && final(self)@ == old(
                self,
            )@.with_distribution(distribution),
            old(self)@.distribution is Some ==> outcome is Err && final(self)@ == old(self)@,
    {
        if self.is_distribution_set() {
            Err(DistributionAlreadySet)
        } else {
            self.set_distribution(distribution);
            Ok(())
        }
    }

    /// Judges the command before it may be logged.
    pub fn validate(&self) -> (verdict: Result<(), ValidationError>)
        ensures
            verdict == self@.spec_validate(),
    {
        if self.collection_name.as_str().is_empty() {
            Err(ValidationError::EmptyCollectionName)
        } else {
            self.create_collection.validate()
        }
    }
}

/// A distribution that was set is taken exactly once: the first take hands
/// it out, the second finds the slot empty. Name and parameters stay as they
/// were throughout.
pub proof fn lemma_set_then_take_once(
    op: CreateCollectionOperationView,
    d: ShardDistributionProposal,
)
    ensures
        op.with_distribution(d).distribution == Some(d),
        op.with_distribution(d).without_distribution().distribution is None,
        op.with_distribution(d).without_distribution().without_distribution().distribution
            is None,
        op.with_distribution(d).without_distribution().collection_name == op.collection_name,
        op.with_distribution(d).without_distribution().create_collection == op.create_collection,
{
}

/// Operation for updating parameters of the existing collection
#[derive(Debug, PartialEq, Eq, Hash, Clone)]
pub struct UpdateCollection {
    /// Custom params for Optimizers.  If none - values from service configuration file are used.
    /// This operation is blocking, it will only proceed ones all current optimizations are complete
    pub optimizers_config: Option<OptimizersConfigDiff>,
    /// Collection base params.  If none - values from service configuration file are used.
    pub params: Option<CollectionParamsDiff>,
}

impl UpdateCollection {
    /// The verdict on these changes: the base parameters, where there are
    /// any, are in order.
    pub open spec fn spec_validate(self) -> Result<(), ValidationError> {
        match self.params {
            Some(params) => params.spec_validate(),
            None => Ok(()),
        }
    }

    /// Judges the changes before a command built on them may be logged.
    pub fn validate(&self) -> (verdict: Result<(), ValidationError>)
        ensures
            verdict == self.spec_validate(),
    {
        match &self.params {
            Some(params) => params.validate(),
            None => Ok(()),
        }
    }
}

/// Operation for updating parameters of the existing collection
#[derive(Debug, PartialEq, Eq, Hash, Clone)]
pub struct UpdateCollectionOperation {
    pub collection_name: String,
    pub update_collection: UpdateCollection,
    shard_replica_changes: Option<Vec<Change>>,
}

/// What an [`UpdateCollectionOperation`] holds. The replica changes are a
/// plain list: no change is the empty list, however it is stored.
pub struct UpdateCollectionOperationView {
    pub collection_name: Seq<char>,
    pub update_collection: UpdateCollection,
    pub shard_replica_changes: Seq<Change>,
}

impl View for UpdateCollectionOperation {
    type V = UpdateCollectionOperationView;

    closed spec fn view(&self) -> UpdateCollectionOperationView {
        UpdateCollectionOperationView {
            collection_name: self.collection_name@,
            update_collection: self.update_collection,
            shard_replica_changes: match self.shard_replica_changes {
                Some(changes) => changes@,
                None => Seq::empty(),
            },
        }
    }
}

impl UpdateCollectionOperationView {
    /// The verdict on this command: it names a collection, and its changes
    /// are in order.
    pub open spec fn spec_validate(self) -> Result<(), ValidationError> {
        if self.collection_name.len() == 0 {
            Err(ValidationError::EmptyCollectionName)
        } else {
            self.update_collection.spec_validate()
        }
    }

    /// Whether any replica change is attached.
    pub open spec fn have_replica_changes(self) -> bool {
        self.shard_replica_changes.len() > 0
    }

    /// What a take hands out: the attached changes, or nothing where none
    /// is attached.
    pub open spec fn pending_changes(self) -> Option<Seq<Change>> {
        if self.have_replica_changes() {
            Some(self.shard_replica_changes)
        } else {
            None
        }
    }

    /// This command with `changes` as its replica changes.
    pub open spec fn with_changes(self, changes: Seq<Change>) -> Self {
        UpdateCollectionOperationView { shard_replica_changes: changes, ..self }
    }
}

impl UpdateCollectionOperation {
    /// No change is stored in one way only: the slot never holds an empty
    /// list. Every constructor and every method that writes the slot
    /// establishes this, so that two commands with the same content are equal.
    pub closed spec fn is_canonical(&self) -> bool {
        self.shard_replica_changes matches Some(changes) ==> changes@.len() > 0
    }

    /// A command that changes no parameter and no replica.
    pub fn new_empty(collection_name: String) -> (op: Self)
        ensures
            op@ == (UpdateCollectionOperationView {
                collection_name: collection_name@,
                update_collection: UpdateCollection { optimizers_config: None, params: None },
                shard_replica_changes: Seq::empty(),
            }),
            op.is_canonical(),
    {
        Self {
            collection_name,
            update_collection: UpdateCollection { optimizers_config: None, params: None },
            shard_replica_changes: None,
        }
    }

    /// A command that changes parameters and, so far, no replica.
    pub fn new(collection_name: String, update_collection: UpdateCollection) -> (op: Self)
        ensures
            op@ == (UpdateCollectionOperationView {
                collection_name: collection_name@,
                update_collection,
                shard_replica_changes: Seq::empty(),
            }),
            op.is_canonical(),
    {
        Self { collection_name, update_collection, shard_replica_changes: None }
    }

    /// Returns `true` if there are replica changes associated with this operation
    pub fn have_replica_changes(&self) -> (have: bool)
        ensures
            have == self@.have_replica_changes(),
    {
        match &self.shard_replica_changes {
            Some(changes) => changes.len() > 0,
            None => false,
        }
    }

    /// Hands out the attached replica changes, if there are any, and leaves
    /// none attached.
    pub fn take_shard_replica_changes(&mut self) -> (taken: Option<Vec<Change>>)
        ensures
            match taken {
                Some(changes) => old(self)@.pending_changes() == Some(changes@),
                None => old(self)@.pending_changes() is None,
            },
            final(self)@ == old(self)@.with_changes(Seq::empty()),
            final(self).is_canonical(),
    {
        match self.shard_replica_changes.take() {
            Some(changes) => {
                if changes.len() > 0 {
                    Some(changes)
                } else {
                    None
                }
            },
            None => None,
        }
    }

    /// Attaches `changes` in place of what was attached. An empty list is
    /// stored as no change at all.
    pub fn set_shard_replica_changes(&mut self, changes: Vec<Change>)
        ensures
            final(self)@ == old(self)@.with_changes(changes@),
            final(self).is_canonical(),
    {
        if changes.is_empty() {
            assert(changes@ =~= Seq::empty());
            self.shard_replica_changes = None;
        } else {
            self.shard_replica_changes = Some(changes);
        }
    }

    /// Judges the command before it may be logged.
    pub fn validate(&self) -> (verdict: Result<(), ValidationError>)
        ensures
            verdict == self@.spec_validate(),
    {
        if self.collection_name.as_str().is_empty() {
            Err(ValidationError::EmptyCollectionName)
        } else {
            self.update_collection.validate()
        }
    }
}

/// Setting an empty list of replica changes leaves none attached, whatever
/// was attached before: the command has no changes, and a take hands out
/// nothing.
pub proof fn lemma_empty_changes_are_absent(op: UpdateCollectionOperationView)
    ensures
        !op.with_changes(Seq::empty()).have_replica_changes(),
        op.with_changes(Seq::empty()).pending_changes() is None,
        op.with_changes(Seq::empty()).collection_name == op.collection_name,
        op.with_changes(Seq::empty()).update_collection == op.update_collection,
{
}

/// Replica changes that were set are taken exactly once.
pub proof fn lemma_set_changes_then_take_once(
    op: UpdateCollectionOperationView,
    changes: Seq<Change>,
)
    requires
        changes.len() > 0,
    ensures
        op.with_changes(changes).have_replica_changes(),
        op.with_changes(changes).pending_changes() == Some(changes),
        op.with_changes(changes).with_changes(Seq::empty()).pending_changes() is None,
{
}

/// Operation for deleting collection with given name
#[derive(Debug, PartialEq, Eq, Hash, Clone)]
pub struct DeleteCollectionOperation(pub String);

impl DeleteCollectionOperation {
    /// The verdict on this command: it names a collection.
    pub open spec fn spec_validate(self) -> Result<(), ValidationError> {
        if self.0@.len() == 0 {
            Err(ValidationError::EmptyCollectionName)
        } else {
            Ok(())
        }
    }

    /// Judges the command before it may be logged.
    pub fn validate(&self) -> (verdict: Result<(), ValidationError>)
        ensures
            verdict == self.spec_validate(),
    {
        if self.0.as_str().is_empty() {
            Err(ValidationError::EmptyCollectionName)
        } else {
            Ok(())
        }
    }
}

} // verus!
