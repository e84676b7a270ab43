use collection_meta_ops::alias_ops::{
    AliasOperations, ChangeAliasesOperation, CreateAlias, DeleteAlias, RenameAlias,
};
use collection_meta_ops::collection_ops::{
    CreateCollection, CreateCollectionOperation, DeleteCollectionOperation, InitFrom,
    UpdateCollection, UpdateCollectionOperation,
};
use collection_meta_ops::config::{
    is_zero, CollectionConfig, CollectionParams, CollectionParamsDiff, Distance, HnswConfig,
    HnswConfigDiff, OptimizersConfig, OptimizersConfigDiff, QuantizationConfig,
    ScalarQuantization, VectorParams, VectorsConfig, WalConfig, WalConfigDiff,
};
use collection_meta_ops::meta_ops::{
    CollectionMetaOperations, SetShardReplicaState, ShardTransferOperations,
};
use collection_meta_ops::replica_set::ReplicaState;
use collection_meta_ops::shard_transfer::ShardTransfer;
use collection_meta_ops::validation::ValidationError;

fn vector(size: u64) -> VectorParams {
    VectorParams { size, distance: Distance::Dot }
}

fn params() -> CreateCollection {
    CreateCollection {
        vectors: VectorsConfig::Single(vector(4)),
        shard_number: Some(4),
        replication_factor: Some(2),
        write_consistency_factor: Some(1),
        on_disk_payload: Some(true),
        hnsw_config: None,
        wal_config: None,
        optimizers_config: None,
        init_from: None,
        quantization_config: None,
    }
}

fn existing() -> CollectionConfig {
    CollectionConfig {
        params: CollectionParams {
            vectors: VectorsConfig::Multi(vec![
                ("image".to_string(), vector(512)),
                ("text".to_string(), VectorParams { size: 384, distance: Distance::Cosine }),
            ]),
            shard_number: 6,
            replication_factor: 3,
            write_consistency_factor: 2,
            on_disk_payload: true,
        },
        hnsw_config: HnswConfig {
            m: 16,
            ef_construct: 100,
            full_scan_threshold: 10000,
            max_indexing_threads: 0,
            on_disk: Some(false),
            payload_m: None,
        },
        optimizer_config: OptimizersConfig {
            deleted_threshold: 0.2f64.to_bits(),
            vacuum_min_vector_number: 1000,
            default_segment_number: 0,
            max_segment_size: None,
            memmap_threshold: Some(200000),
            indexing_threshold: 20000,
            flush_interval_sec: 5,
            max_optimization_threads: 1,
        },
        wal_config: WalConfig { wal_capacity_mb: 32, wal_segments_ahead: 0 },
        quantization_config: Some(QuantizationConfig::Scalar(ScalarQuantization {
            quantile: Some(0.99f32.to_bits()),
            always_ram: Some(true),
        })),
    }
}

#[test]
fn is_zero_tells_a_present_zero() {
    assert!(is_zero(Some(0)));
    assert!(!is_zero(Some(1)));
    assert!(!is_zero(Some(u32::MAX)));
    assert!(!is_zero(None));
}

#[test]
fn well_formed_parameters_are_accepted() {
    assert_eq!(params().validate(), Ok(()));
    let bare = CreateCollection {
        shard_number: None,
        replication_factor: None,
        write_consistency_factor: None,
        on_disk_payload: None,
        ..params()
    };
    assert_eq!(bare.validate(), Ok(()));
    let least = CreateCollection {
        vectors: VectorsConfig::Single(vector(1)),
        shard_number: Some(1),
        replication_factor: Some(1),
        write_consistency_factor: Some(1),
        ..params()
    };
    assert_eq!(least.validate(), Ok(()));
}

#[test]
fn zero_shard_number_is_refused() {
    let create = CreateCollection { shard_number: Some(0), ..params() };
    assert_eq!(create.validate(), Err(ValidationError::ZeroShardNumber));
    let op = CreateCollectionOperation::new("docs".to_string(), create);
    assert_eq!(op.validate(), Err(ValidationError::ZeroShardNumber));
    assert_eq!(
        CollectionMetaOperations::CreateCollection(op).validate(),
        Err(ValidationError::ZeroShardNumber)
    );
}

#[test]
fn zero_replication_factor_is_refused() {
    let create = CreateCollection { replication_factor: Some(0), ..params() };
    assert_eq!(create.validate(), Err(ValidationError::ZeroReplicationFactor));
}

#[test]
fn zero_write_consistency_factor_is_refused() {
    let create = CreateCollection { write_consistency_factor: Some(0), ..params() };
    assert_eq!(create.validate(), Err(ValidationError::ZeroWriteConsistencyFactor));
}

#[test]
fn counts_are_judged_in_order() {
    let create = CreateCollection {
        vectors: VectorsConfig::Single(vector(0)),
        shard_number: Some(0),
        replication_factor: Some(0),
        write_consistency_factor: Some(0),
        ..params()
    };
    assert_eq!(create.validate(), Err(ValidationError::ZeroShardNumber));
    let create = CreateCollection { shard_number: Some(1), ..create };
    assert_eq!(create.validate(), Err(ValidationError::ZeroReplicationFactor));
    let create = CreateCollection { replication_factor: None, ..create };
    assert_eq!(create.validate(), Err(ValidationError::ZeroWriteConsistencyFactor));
    let create = CreateCollection { write_consistency_factor: Some(3), ..create };
    assert_eq!(create.validate(), Err(ValidationError::ZeroVectorSize));
}

#[test]
fn vector_without_dimension_is_refused() {
    assert_eq!(
        VectorsConfig::Single(vector(0)).validate(),
        Err(ValidationError::ZeroVectorSize)
    );
    let named = VectorsConfig::Multi(vec![
        ("image".to_string(), vector(512)),
        ("text".to_string(), vector(0)),
    ]);
    assert_eq!(named.validate(), Err(ValidationError::ZeroVectorSize));
    let create = CreateCollection { vectors: named, ..params() };
    assert_eq!(create.validate(), Err(ValidationError::ZeroVectorSize));
}

#[test]
fn repeated_vector_name_is_refused() {
    let named = VectorsConfig::Multi(vec![
        ("image".to_string(), vector(512)),
        ("text".to_string(), vector(384)),
        ("image".to_string(), vector(256)),
    ]);
    assert_eq!(named.validate(), Err(ValidationError::DuplicateVectorName));
    let both = VectorsConfig::Multi(vec![
        ("image".to_string(), vector(512)),
        ("image".to_string(), vector(0)),
    ]);
    assert_eq!(both.validate(), Err(ValidationError::ZeroVectorSize));
}

#[test]
fn named_vectors_in_order_are_accepted() {
    let named = VectorsConfig::Multi(vec![
        ("image".to_string(), vector(512)),
        ("Image".to_string(), vector(512)),
        ("".to_string(), vector(1)),
    ]);
    assert_eq!(named.validate(), Ok(()));
    assert_eq!(VectorsConfig::Multi(vec![]).validate(), Ok(()));
    assert_eq!(VectorsConfig::Single(vector(u64::MAX)).validate(), Ok(()));
}

#[test]
fn empty_collection_name_is_refused() {
    let create = CreateCollectionOperation::new(String::new(), params());
    assert_eq!(create.validate(), Err(ValidationError::EmptyCollectionName));
    let update = UpdateCollectionOperation::new_empty(String::new());
    assert_eq!(update.validate(), Err(ValidationError::EmptyCollectionName));
    let delete = DeleteCollectionOperation(String::new());
    assert_eq!(delete.validate(), Err(ValidationError::EmptyCollectionName));
    assert_eq!(DeleteCollectionOperation("docs".to_string()).validate(), Ok(()));
    assert_eq!(
        CollectionMetaOperations::DeleteCollection(delete).validate(),
        Err(ValidationError::EmptyCollectionName)
    );
}

#[test]
fn name_is_judged_before_the_parameters() {
    let create = CreateCollection { shard_number: Some(0), ..params() };
    let op = CreateCollectionOperation::new(String::new(), create);
    assert_eq!(op.validate(), Err(ValidationError::EmptyCollectionName));
}

#[test]
fn empty_source_collection_is_refused() {
    let create =
        CreateCollection { init_from: Some(InitFrom { collection: String::new() }), ..params() };
    assert_eq!(create.validate(), Err(ValidationError::EmptyCollectionName));
    let create = CreateCollection {
        init_from: Some(InitFrom { collection: "source".to_string() }),
        ..params()
    };
    assert_eq!(create.validate(), Ok(()));
}

#[test]
fn update_parameters_are_judged() {
    let zero_replicas = CollectionParamsDiff {
        replication_factor: Some(0),
        write_consistency_factor: Some(0),
    };
    assert_eq!(zero_replicas.validate(), Err(ValidationError::ZeroReplicationFactor));
    let zero_writes =
        CollectionParamsDiff { replication_factor: None, write_consistency_factor: Some(0) };
    assert_eq!(zero_writes.validate(), Err(ValidationError::ZeroWriteConsistencyFactor));
    let fine = CollectionParamsDiff {
        replication_factor: Some(2),
        write_consistency_factor: None,
    };
    assert_eq!(fine.validate(), Ok(()));

    let update = UpdateCollection { optimizers_config: None, params: Some(zero_writes) };
    assert_eq!(update.validate(), Err(ValidationError::ZeroWriteConsistencyFactor));
    let op = UpdateCollectionOperation::new("docs".to_string(), update);
    assert_eq!(op.validate(), Err(ValidationError::ZeroWriteConsistencyFactor));
    assert_eq!(
        CollectionMetaOperations::UpdateCollection(op).validate(),
        Err(ValidationError::ZeroWriteConsistencyFactor)
    );
    let update = UpdateCollection { optimizers_config: None, params: Some(fine) };
    assert_eq!(UpdateCollectionOperation::new("docs".to_string(), update).validate(), Ok(()));
    assert_eq!(UpdateCollectionOperation::new_empty("docs".to_string()).validate(), Ok(()));
}

#[test]
fn alias_to_a_nameless_collection_is_refused() {
    let create = |alias: &str, collection: &str| {
        AliasOperations::from(CreateAlias {
            collection_name: collection.to_string(),
            alias_name: alias.to_string(),
        })
    };
    assert!(create("d", "").has_empty_collection_name());
    assert!(!create("d", "docs").has_empty_collection_name());
    assert!(!create("", "docs").has_empty_collection_name());
    let delete = AliasOperations::from(DeleteAlias { alias_name: String::new() });
    assert!(!delete.has_empty_collection_name());
    let rename = AliasOperations::from(RenameAlias {
        old_alias_name: "d".to_string(),
        new_alias_name: "e".to_string(),
    });
    assert!(!rename.has_empty_collection_name());

    let batch = ChangeAliasesOperation {
        actions: vec![create("d", "docs"), delete.clone(), create("e", ""), rename.clone()],
    };
    assert_eq!(batch.validate(), Err(ValidationError::EmptyCollectionName));
    assert_eq!(
        CollectionMetaOperations::ChangeAliases(batch).validate(),
        Err(ValidationError::EmptyCollectionName)
    );
    let batch = ChangeAliasesOperation { actions: vec![create("d", "docs"), delete, rename] };
    assert_eq!(batch.validate(), Ok(()));
    assert_eq!(ChangeAliasesOperation { actions: vec![] }.validate(), Ok(()));
}

#[test]
fn shard_commands_name_their_collection() {
    let moved = ShardTransfer { shard_id: 3, from: 1, to: 2, sync: false };
    let start = |collection: &str| {
        CollectionMetaOperations::TransferShard(
            collection.to_string(),
            ShardTransferOperations::Start(moved),
        )
    };
    assert_eq!(start("docs").validate(), Ok(()));
    assert_eq!(start("").validate(), Err(ValidationError::EmptyCollectionName));
    let set_state = |collection: &str| {
        CollectionMetaOperations::SetShardReplicaState(SetShardReplicaState {
            collection_name: collection.to_string(),
            shard_id: 3,
            peer_id: 2,
            state: ReplicaState::Active,
            from_state: Some(ReplicaState::Active),
        })
    };
    assert_eq!(set_state("docs").validate(), Ok(()));
    assert_eq!(set_state("").validate(), Err(ValidationError::EmptyCollectionName));
}

#[test]
fn nop_is_always_in_order() {
    assert_eq!(CollectionMetaOperations::Nop { token: 0 }.validate(), Ok(()));
    assert_eq!(CollectionMetaOperations::Nop { token: usize::MAX }.validate(), Ok(()));
    assert_eq!(
        CollectionMetaOperations::Nop { token: 7 },
        CollectionMetaOperations::Nop { token: 7 }
    );
    assert_ne!(
        CollectionMetaOperations::Nop { token: 7 },
        CollectionMetaOperations::Nop { token: 8 }
    );
}

#[test]
fn full_configs_become_diffs_that_set_everything() {
    let config = existing();
    assert_eq!(
        HnswConfigDiff::from(config.hnsw_config),
        HnswConfigDiff {
            m: Some(16),
            ef_construct: Some(100),
            full_scan_threshold: Some(10000),
            max_indexing_threads: Some(0),
            on_disk: Some(false),
            payload_m: None,
        }
    );
    assert_eq!(
        WalConfigDiff::from(config.wal_config),
        WalConfigDiff { wal_capacity_mb: Some(32), wal_segments_ahead: Some(0) }
    );
    assert_eq!(
        OptimizersConfigDiff::from(config.optimizer_config),
        OptimizersConfigDiff {
            deleted_threshold: Some(0.2f64.to_bits()),
            vacuum_min_vector_number: Some(1000),
            default_segment_number: Some(0),
            max_segment_size: None,
            memmap_threshold: Some(200000),
            indexing_threshold: Some(20000),
            flush_interval_sec: Some(5),
            max_optimization_threads: Some(1),
        }
    );
}

#[test]
fn create_parameters_from_an_existing_collection() {
    let config = existing();
    let create = CreateCollection::from(config.clone());
    assert_eq!(
        create,
        CreateCollection {
            vectors: config.params.vectors.clone(),
            shard_number: Some(6),
            replication_factor: Some(3),
            write_consistency_factor: Some(2),
            on_disk_payload: Some(true),
            hnsw_config: Some(HnswConfigDiff::from(config.hnsw_config)),
            wal_config: Some(WalConfigDiff::from(config.wal_config)),
            optimizers_config: Some(OptimizersConfigDiff::from(config.optimizer_config)),
            init_from: None,
            quantization_config: config.quantization_config,
        }
    );
    assert_eq!(create.validate(), Ok(()));
}

#[test]
fn collection_names_keep_their_unicode() {
    let name = "Коллекция-日本語-🦀".to_string();
    let op = CreateCollectionOperation::new(name.clone(), params());
    assert_eq!(op.collection_name, name);
    assert_eq!(op.validate(), Ok(()));
    assert_eq!(op.clone(), op);
    assert_ne!(op, CreateCollectionOperation::new("Коллекция-日本語".to_string(), params()));
}
