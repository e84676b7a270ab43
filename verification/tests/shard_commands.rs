use collection_meta_ops::meta_ops::{
    CollectionMetaOperations, SetShardReplicaState, ShardTransferOperations,
};
use collection_meta_ops::replica_set::ReplicaState;
use collection_meta_ops::shard_registry::{ReplicaUpdate, ShardRegistry, TransferError};
use collection_meta_ops::shard_transfer::{ShardTransfer, ShardTransferKey};

fn docs() -> String {
    "docs".to_string()
}

fn transfer(shard_id: u32, from: u64, to: u64) -> ShardTransfer {
    ShardTransfer { shard_id, from, to, sync: false }
}

fn set_state(
    peer_id: u64,
    state: ReplicaState,
    from_state: Option<ReplicaState>,
) -> SetShardReplicaState {
    SetShardReplicaState { collection_name: docs(), shard_id: 3, peer_id, state, from_state }
}

#[test]
fn key_of_a_transfer_names_shard_source_and_destination() {
    let moved = ShardTransfer { shard_id: 3, from: 1, to: 2, sync: true };
    assert_eq!(moved.key(), ShardTransferKey { shard_id: 3, from: 1, to: 2 });
    assert_eq!(moved.key(), transfer(3, 1, 2).key());
}

#[test]
fn key_checks_the_transfer_it_addresses() {
    let key = ShardTransferKey { shard_id: 3, from: 1, to: 2 };
    assert!(key.check(&transfer(3, 1, 2)));
    assert!(key.check(&ShardTransfer { shard_id: 3, from: 1, to: 2, sync: true }));
    assert!(!key.check(&transfer(4, 1, 2)));
    assert!(!key.check(&transfer(3, 2, 1)));
    assert!(!key.check(&transfer(3, 1, 3)));
    assert!(!key.check(&transfer(3, 5, 2)));
}

#[test]
fn every_message_has_the_key_of_its_transfer() {
    let key = ShardTransferKey { shard_id: 3, from: 1, to: 2 };
    assert_eq!(ShardTransferOperations::Start(transfer(3, 1, 2)).key(), key);
    assert_eq!(ShardTransferOperations::Finish(transfer(3, 1, 2)).key(), key);
    let abort = ShardTransferOperations::Abort { transfer: key, reason: "lost".to_string() };
    assert_eq!(abort.key(), key);
}

#[test]
fn new_registry_knows_nothing() {
    let registry = ShardRegistry::new();
    assert_eq!(registry.replica_state(&docs(), 3, 2), None);
    assert!(!registry.is_in_flight(&docs(), &transfer(3, 1, 2).key()));
}

#[test]
fn started_transfer_is_in_flight() {
    let mut registry = ShardRegistry::new();
    let start = ShardTransferOperations::Start(transfer(3, 1, 2));
    assert_eq!(registry.apply_transfer(&docs(), &start), Ok(()));
    assert!(registry.is_in_flight(&docs(), &transfer(3, 1, 2).key()));
    assert!(!registry.is_in_flight(&docs(), &transfer(3, 5, 2).key()));
    assert!(!registry.is_in_flight(&docs(), &transfer(3, 2, 1).key()));
    assert!(!registry.is_in_flight(&docs(), &transfer(4, 1, 2).key()));
    assert!(!registry.is_in_flight(&"other".to_string(), &transfer(3, 1, 2).key()));
    assert_eq!(registry.replica_state(&docs(), 3, 2), None);
}

#[test]
fn second_start_to_the_same_destination_is_a_conflict() {
    let mut registry = ShardRegistry::new();
    let start = ShardTransferOperations::Start(transfer(3, 1, 2));
    assert_eq!(registry.apply_transfer(&docs(), &start), Ok(()));
    assert_eq!(registry.apply_transfer(&docs(), &start), Err(TransferError::Conflict));
    let from_elsewhere = ShardTransferOperations::Start(transfer(3, 7, 2));
    assert_eq!(registry.apply_transfer(&docs(), &from_elsewhere), Err(TransferError::Conflict));
    assert!(registry.is_in_flight(&docs(), &transfer(3, 1, 2).key()));
    assert!(!registry.is_in_flight(&docs(), &transfer(3, 7, 2).key()));
}

#[test]
fn transfers_of_distinct_shards_run_together() {
    let mut registry = ShardRegistry::new();
    for moved in [transfer(3, 1, 2), transfer(4, 1, 2), transfer(3, 1, 5)] {
        assert_eq!(
            registry.apply_transfer(&docs(), &ShardTransferOperations::Start(moved)),
            Ok(())
        );
    }
    let elsewhere = "other".to_string();
    assert_eq!(
        registry.apply_transfer(&elsewhere, &ShardTransferOperations::Start(transfer(3, 1, 2))),
        Ok(())
    );
    assert!(registry.is_in_flight(&docs(), &transfer(3, 1, 2).key()));
    assert!(registry.is_in_flight(&docs(), &transfer(4, 1, 2).key()));
    assert!(registry.is_in_flight(&docs(), &transfer(3, 1, 5).key()));
    assert!(registry.is_in_flight(&elsewhere, &transfer(3, 1, 2).key()));
}

#[test]
fn finish_ends_the_transfer_and_promotes_the_destination() {
    let mut registry = ShardRegistry::new();
    let moved = transfer(3, 1, 2);
    assert_eq!(registry.apply_transfer(&docs(), &ShardTransferOperations::Start(moved)), Ok(()));
    assert_eq!(
        registry.apply_replica_state(&set_state(2, ReplicaState::Partial, None)),
        ReplicaUpdate::Applied
    );
    assert_eq!(registry.apply_transfer(&docs(), &ShardTransferOperations::Finish(moved)), Ok(()));
    assert!(!registry.is_in_flight(&docs(), &moved.key()));
    assert_eq!(registry.replica_state(&docs(), 3, 2), Some(ReplicaState::Active));
    assert_eq!(registry.replica_state(&docs(), 3, 1), None);
    assert_eq!(
        registry.apply_transfer(&docs(), &ShardTransferOperations::Finish(moved)),
        Err(TransferError::NotFound)
    );
}

#[test]
fn finish_without_a_start_is_not_found() {
    let mut registry = ShardRegistry::new();
    let finish = ShardTransferOperations::Finish(transfer(3, 1, 2));
    assert_eq!(registry.apply_transfer(&docs(), &finish), Err(TransferError::NotFound));
    assert_eq!(registry.replica_state(&docs(), 3, 2), None);
}

#[test]
fn finish_from_another_source_is_not_found() {
    let mut registry = ShardRegistry::new();
    let start = ShardTransferOperations::Start(transfer(3, 1, 2));
    assert_eq!(registry.apply_transfer(&docs(), &start), Ok(()));
    let finish = ShardTransferOperations::Finish(transfer(3, 9, 2));
    assert_eq!(registry.apply_transfer(&docs(), &finish), Err(TransferError::NotFound));
    let elsewhere = "other".to_string();
    let finish = ShardTransferOperations::Finish(transfer(3, 1, 2));
    assert_eq!(registry.apply_transfer(&elsewhere, &finish), Err(TransferError::NotFound));
    assert!(registry.is_in_flight(&docs(), &transfer(3, 1, 2).key()));
    assert_eq!(registry.replica_state(&docs(), 3, 2), None);
}

#[test]
fn abort_without_a_start_is_not_found() {
    let mut registry = ShardRegistry::new();
    let abort = ShardTransferOperations::Abort {
        transfer: transfer(3, 1, 2).key(),
        reason: "peer 2 is gone".to_string(),
    };
    assert_eq!(registry.apply_transfer(&docs(), &abort), Err(TransferError::NotFound));
}

#[test]
fn abort_after_disconnect_matches_the_start() {
    let mut registry = ShardRegistry::new();
    let collection = docs();
    let started = ShardTransfer { shard_id: 3, from: 1, to: 2, sync: false };
    let start = CollectionMetaOperations::TransferShard(
        collection.clone(),
        ShardTransferOperations::Start(started),
    );
    assert_eq!(start.validate(), Ok(()));
    match &start {
        CollectionMetaOperations::TransferShard(name, message) => {
            assert_eq!(registry.apply_transfer(name, message), Ok(()));
        },
        _ => unreachable!(),
    }
    assert!(registry.is_in_flight(&collection, &started.key()));

    // The destination is lost: the transfer is cancelled by its key.
    let abort = ShardTransferOperations::Abort {
        transfer: started.key(),
        reason: format!("peer {} disconnected", started.to),
    };
    match &abort {
        ShardTransferOperations::Abort { transfer, reason } => {
            assert!(!reason.is_empty());
            assert_eq!(*transfer, ShardTransferKey { shard_id: 3, from: 1, to: 2 });
            assert!(transfer.check(&started));
        },
        _ => unreachable!(),
    }
    assert_eq!(abort.key(), ShardTransferOperations::Start(started).key());
    assert_eq!(registry.apply_transfer(&collection, &abort), Ok(()));
    assert!(!registry.is_in_flight(&collection, &started.key()));
    assert_eq!(registry.replica_state(&collection, 3, 2), None);
    assert_eq!(registry.apply_transfer(&collection, &abort), Err(TransferError::NotFound));
    assert_eq!(
        registry.apply_transfer(&collection, &ShardTransferOperations::Start(started)),
        Ok(())
    );
}

#[test]
fn unconditional_change_writes_the_state() {
    let mut registry = ShardRegistry::new();
    assert_eq!(
        registry.apply_replica_state(&set_state(2, ReplicaState::Initializing, None)),
        ReplicaUpdate::Applied
    );
    assert_eq!(registry.replica_state(&docs(), 3, 2), Some(ReplicaState::Initializing));
    assert_eq!(
        registry.apply_replica_state(&set_state(2, ReplicaState::Listener, None)),
        ReplicaUpdate::Applied
    );
    assert_eq!(registry.replica_state(&docs(), 3, 2), Some(ReplicaState::Listener));
    assert_eq!(registry.replica_state(&docs(), 3, 1), None);
    assert_eq!(registry.replica_state(&docs(), 2, 2), None);
    assert_eq!(registry.replica_state(&"other".to_string(), 3, 2), None);
}

#[test]
fn change_from_the_current_state_is_applied() {
    let mut registry = ShardRegistry::new();
    registry.apply_replica_state(&set_state(2, ReplicaState::Initializing, None));
    let promote = set_state(2, ReplicaState::Active, Some(ReplicaState::Initializing));
    assert_eq!(registry.apply_replica_state(&promote), ReplicaUpdate::Applied);
    assert_eq!(registry.replica_state(&docs(), 3, 2), Some(ReplicaState::Active));
    assert_eq!(registry.apply_replica_state(&promote), ReplicaUpdate::Dismissed);
    assert_eq!(registry.replica_state(&docs(), 3, 2), Some(ReplicaState::Active));
}

#[test]
fn change_from_another_state_is_dismissed() {
    let mut registry = ShardRegistry::new();
    registry.apply_replica_state(&set_state(2, ReplicaState::Dead, None));
    registry.apply_replica_state(&set_state(1, ReplicaState::Active, None));
    let keep_active = SetShardReplicaState {
        collection_name: docs(),
        shard_id: 3,
        peer_id: 2,
        state: ReplicaState::Active,
        from_state: Some(ReplicaState::Active),
    };
    assert_eq!(registry.apply_replica_state(&keep_active), ReplicaUpdate::Dismissed);
    assert_eq!(registry.replica_state(&docs(), 3, 2), Some(ReplicaState::Dead));
    assert_eq!(registry.replica_state(&docs(), 3, 1), Some(ReplicaState::Active));
}

#[test]
fn conditional_change_of_an_unknown_replica_is_dismissed() {
    let mut registry = ShardRegistry::new();
    let change = set_state(2, ReplicaState::Active, Some(ReplicaState::Initializing));
    assert_eq!(registry.apply_replica_state(&change), ReplicaUpdate::Dismissed);
    assert_eq!(registry.replica_state(&docs(), 3, 2), None);
}

#[test]
fn change_of_state_leaves_transfers_alone() {
    let mut registry = ShardRegistry::new();
    let moved = transfer(3, 1, 2);
    assert_eq!(registry.apply_transfer(&docs(), &ShardTransferOperations::Start(moved)), Ok(()));
    registry.apply_replica_state(&set_state(2, ReplicaState::Dead, None));
    assert!(registry.is_in_flight(&docs(), &moved.key()));
}
