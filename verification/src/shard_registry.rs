//! What the cluster knows of its shards: the state of every replica and the
//! transfers that are under way. Commands on shards are applied here, one
//! at a time.

use vstd::prelude::*;
use crate::ids::{CollectionId, PeerId, ShardId};
use crate::keyed;
use crate::meta_ops::{SetShardReplicaState, ShardTransferOperations};
use crate::replica_set::ReplicaState;
use crate::shard_transfer::{ShardTransfer, ShardTransferKey};

verus! {

/// Why a message of a shard movement is refused.
#[derive(Debug, PartialEq, Eq, Hash, Clone, Copy, Structural)]
pub enum TransferError {
    /// A transfer of this shard to this destination is under way already.
    Conflict,
    /// No transfer with this key is under way.
    NotFound,
}

/// What became of a conditional change of a replica's state.
#[derive(Debug, PartialEq, Eq, Hash, Clone, Copy, Structural)]
pub enum ReplicaUpdate {
    /// The new state was written.
    Applied,
    /// The replica was not in the expected state: nothing was written, and
    /// this is no error.
    Dismissed,
}

/// A shard of a collection on a peer: the collection, the shard, the peer.
pub type ShardPeer = (Seq<char>, ShardId, PeerId);

/// The shards of the cluster as plain maps.
pub struct ShardRegistryView {
    /// The state of each replica, by the shard and the peer that holds it.
    pub replicas: Map<ShardPeer, ReplicaState>,
    /// The transfers under way, by the shard and its destination: for each,
    /// the source and whether the source keeps the shard. At most one
    /// transfer goes to one destination of one shard at a time.
    pub transfers: Map<ShardPeer, (PeerId, bool)>,
}

impl ShardRegistryView {
    /// The registry of a cluster without shards.
    pub open spec fn empty() -> Self {
        ShardRegistryView { replicas: Map::empty(), transfers: Map::empty() }
    }

    /// The state of the replica of `shard_id` on `peer_id`, if there is one.
    pub open spec fn replica_state(
        self,
        collection: Seq<char>,
        shard_id: ShardId,
        peer_id: PeerId,
    ) -> Option<ReplicaState> {
        if self.replicas.contains_key((collection, shard_id, peer_id)) {
            Some(self.replicas[(collection, shard_id, peer_id)])
        } else {
            None
        }
    }

    /// A transfer with this key is under way in `collection`.
    pub open spec fn in_flight(self, collection: Seq<char>, key: ShardTransferKey) -> bool {
        self.transfers.contains_key((collection, key.shard_id, key.to)) && self.transfers[(
            collection,
            key.shard_id,
            key.to,
        )].0 == key.from
    }

    /// A start is refused while a transfer of the same shard to the same
    /// destination is under way; else the transfer is recorded.
    pub open spec fn start(self, collection: Seq<char>, transfer: ShardTransfer) -> Result<
        Self,
        TransferError,
    > {
        if self.transfers.contains_key((collection, transfer.shard_id, transfer.to)) {
            Err(TransferError::Conflict)
        } else {
            Ok(
                ShardRegistryView {
                    transfers: self.transfers.insert(
                        (collection, transfer.shard_id, transfer.to),
                        (transfer.from, transfer.sync),
                    ),
                    ..self
                },
            )
        }
    }

    /// A finish is refused unless the transfer is under way; else the
    /// transfer is over and the replica at its destination is active.
    pub open spec fn finish(self, collection: Seq<char>, transfer: ShardTransfer) -> Result<
        Self,
        TransferError,
    > {
        if self.in_flight(collection, transfer.spec_key()) {
            Ok(
                ShardRegistryView {
                    replicas: self.replicas.insert(
                        (collection, transfer.shard_id, transfer.to),
                        ReplicaState::Active,
                    ),
                    transfers: self.transfers.remove((collection, transfer.shard_id, transfer.to)),
                },
            )
        } else {
            Err(TransferError::NotFound)
        }
    }

    /// An abort is refused unless the transfer is under way; else the
    /// transfer is over and no replica changes.
    pub open spec fn abort(self, collection: Seq<char>, key: ShardTransferKey) -> Result<
        Self,
        TransferError,
    > {
        if self.in_flight(collection, key) {
            Ok(
                ShardRegistryView {
                    transfers: self.transfers.remove((collection, key.shard_id, key.to)),
                    ..self
                },
            )
        } else {
            Err(TransferError::NotFound)
        }
    }

    /// What a message of a shard movement in `collection` makes of the
    /// registry.
    pub open spec fn apply_transfer(
        self,
        collection: Seq<char>,
        operation: ShardTransferOperations,
    ) -> Result<Self, TransferError> {
        match operation {
            ShardTransferOperations::Start(transfer) => self.start(collection, transfer),
            ShardTransferOperations::Finish(transfer) => self.finish(collection, transfer),
            ShardTransferOperations::Abort { transfer, reason } => self.abort(collection, transfer),
        }
    }

    /// Whether a change of state goes through: it does unless it names an
    /// expected state and the replica is not in it. A replica that is not
    /// known is in no state.
    pub open spec fn admits(self, operation: SetShardReplicaState) -> bool {
        match operation.from_state {
            Some(expected) => self.replica_state(
                operation.collection_name@,
                operation.shard_id,
                operation.peer_id,
            ) == Some(expected),
            None => true,
        }
    }

    /// What a change of state makes of the registry: the new state is
    /// written where the change goes through, and nothing changes where
    /// it does not.
    pub open spec fn set_replica_state(self, operation: SetShardReplicaState) -> Self {
        if self.admits(operation) {
            ShardRegistryView {
                replicas: self.replicas.insert(
                    (operation.collection_name@, operation.shard_id, operation.peer_id),
                    operation.state,
                ),
                ..self
            }
        } else {
            self
        }
    }
}

/// A change that expects a state in which the replica is not is dismissed:
/// the registry stays as it is.
pub proof fn lemma_mismatch_is_dismissed(
    registry: ShardRegistryView,
    operation: SetShardReplicaState,
)
    requires
        operation.from_state matches Some(expected) && registry.replica_state(
            operation.collection_name@,
            operation.shard_id,
            operation.peer_id,
        ) != Some(expected),
    ensures
        !registry.admits(operation),
        registry.set_replica_state(operation) == registry,
{
}

/// A change that expects no state, or the state in which the replica is,
/// writes the new state and touches no other replica and no transfer.
pub proof fn lemma_match_is_applied(registry: ShardRegistryView, operation: SetShardReplicaState)
    requires
        registry.admits(operation),
    ensures
        registry.set_replica_state(operation).replica_state(
            operation.collection_name@,
            operation.shard_id,
            operation.peer_id,
        ) == Some(operation.state),
        registry.set_replica_state(operation).transfers == registry.transfers,
        forall|other: ShardPeer|
            other != (operation.collection_name@, operation.shard_id, operation.peer_id)
                ==> registry.set_replica_state(operation).replicas.contains_key(other)
                == registry.replicas.contains_key(other) && registry.set_replica_state(
                operation,
            ).replicas[other] == registry.replicas[other],
{
}

/// A transfer that was started is under way, and a second start of the same
/// shard towards the same destination is refused, from whatever source.
pub proof fn lemma_started_transfer_excludes_another(
    registry: ShardRegistryView,
    collection: Seq<char>,
    transfer: ShardTransfer,
    other: ShardTransfer,
)
    requires
        registry.start(collection, transfer) is Ok,
        other.shard_id == transfer.shard_id,
        other.to == transfer.to,
    ensures
        registry.start(collection, transfer)->Ok_0.in_flight(collection, transfer.spec_key()),
        registry.start(collection, transfer)->Ok_0.start(collection, other) == Err::<
            ShardRegistryView,
            _,
        >(TransferError::Conflict),
{
}

/// Transfers of distinct shards, to distinct destinations or in distinct
/// collections do not stand in each other's way: if each could start alone,
/// one can start after the other.
pub proof fn lemma_distinct_transfers_run_together(
    registry: ShardRegistryView,
    collection: Seq<char>,
    transfer: ShardTransfer,
    other_collection: Seq<char>,
    other: ShardTransfer,
)
    requires
        registry.start(collection, transfer) is Ok,
        registry.start(other_collection, other) is Ok,
        other_collection != collection || other.shard_id != transfer.shard_id || other.to
            != transfer.to,
    ensures
        registry.start(collection, transfer)->Ok_0.start(other_collection, other) is Ok,
        registry.start(collection, transfer)->Ok_0.start(other_collection, other)->Ok_0.in_flight(
            collection,
            transfer.spec_key(),
        ),
        registry.start(collection, transfer)->Ok_0.start(other_collection, other)->Ok_0.in_flight(
            other_collection,
            other.spec_key(),
        ),
{
}

/// Aborting a transfer by the key of its start undoes the start: the
/// registry is what it was before.
pub proof fn lemma_abort_undoes_start(
    registry: ShardRegistryView,
    collection: Seq<char>,
    transfer: ShardTransfer,
)
    requires
        registry.start(collection, transfer) is Ok,
    ensures
        registry.start(collection, transfer)->Ok_0.abort(collection, transfer.spec_key()) == Ok::<
            _,
            TransferError,
        >(registry),
{
    let started = registry.start(collection, transfer)->Ok_0;
    let k = (collection, transfer.shard_id, transfer.to);
    assert(started.transfers.remove(k) =~= registry.transfers);
}

/// Finishing a transfer that was started ends it and leaves the replica at
/// the destination active; a second finish finds no transfer.
pub proof fn lemma_finish_promotes_destination(
    registry: ShardRegistryView,
    collection: Seq<char>,
    transfer: ShardTransfer,
)
    requires
        registry.start(collection, transfer) is Ok,
    ensures
        registry.start(collection, transfer)->Ok_0.finish(collection, transfer) is Ok,
        ({
            let finished = registry.start(collection, transfer)->Ok_0.finish(
                collection,
                transfer,
            )->Ok_0;
            &&& finished.replica_state(collection, transfer.shard_id, transfer.to) == Some(
                ReplicaState::Active,
            )
            &&& finished.transfers == registry.transfers
            &&& finished.finish(collection, transfer) == Err::<ShardRegistryView, _>(
                TransferError::NotFound,
            )
        }),
{
    let started = registry.start(collection, transfer)->Ok_0;
    let k = (collection, transfer.shard_id, transfer.to);
    assert(started.transfers.remove(k) =~= registry.transfers);
}

/// The shard and the peer of a replica entry.
spec fn replica_key() -> spec_fn((String, ShardId, PeerId, ReplicaState)) -> ShardPeer {
    |entry: (String, ShardId, PeerId, ReplicaState)| (entry.0@, entry.1, entry.2)
}

/// The state of a replica entry.
spec fn replica_value() -> spec_fn((String, ShardId, PeerId, ReplicaState)) -> ReplicaState {
    |entry: (String, ShardId, PeerId, ReplicaState)| entry.3
}

/// The shard and the destination of a transfer entry.
spec fn transfer_key() -> spec_fn((String, ShardTransfer)) -> ShardPeer {
    |entry: (String, ShardTransfer)| (entry.0@, entry.1.shard_id, entry.1.to)
}

/// The source of a transfer entry, and whether the source keeps the shard.
spec fn transfer_value() -> spec_fn((String, ShardTransfer)) -> (PeerId, bool) {
    |entry: (String, ShardTransfer)| (entry.1.from, entry.1.sync)
}

spec fn replicas_map(replicas: Seq<(String, ShardId, PeerId, ReplicaState)>) -> Map<
    ShardPeer,
    ReplicaState,
> {
    keyed::as_map(replicas, replica_key(), replica_value())
}

spec fn transfers_map(transfers: Seq<(String, ShardTransfer)>) -> Map<ShardPeer, (PeerId, bool)> {
    keyed::as_map(transfers, transfer_key(), transfer_value())
}

/// Where the replica of the shard on the peer is recorded, if it is.
fn find_replica(
    replicas: &Vec<(String, ShardId, PeerId, ReplicaState)>,
    collection: &String,
    shard_id: ShardId,
    peer_id: PeerId,
) -> (found: Option<usize>)
    ensures
        match found {
            Some(i) => keyed::holds(
                replicas@,
                replica_key(),
                i as int,
                (collection@, shard_id, peer_id),
            ),
            None => !keyed::has_key(replicas@, replica_key(), (collection@, shard_id, peer_id)),
        },
{
    let n = replicas.len();
    let mut i: usize = 0;
    while i < n
        invariant
            n == replicas@.len(),
            i <= n,
            forall|k: int|
                0 <= k < i ==> !keyed::holds(
                    replicas@,
                    replica_key(),
                    k,
                    (collection@, shard_id, peer_id),
                ),
        decreases n - i,
    {
        if replicas[i].1 == shard_id && replicas[i].2 == peer_id && replicas[i].0 == *collection {
            return Some(i);
        }
        i = i + 1;
    }
    None
}

/// Where the transfer of the shard to the destination is recorded, if one is.
fn find_transfer(
    transfers: &Vec<(String, ShardTransfer)>,
    collection: &String,
    shard_id: ShardId,
    to: PeerId,
) -> (found: Option<usize>)
    ensures
        match found {
            Some(i) => keyed::holds(transfers@, transfer_key(), i as int, (collection@, shard_id, to)),
            None => !keyed::has_key(transfers@, transfer_key(), (collection@, shard_id, to)),
        },
{
    let n = transfers.len();
    let mut i: usize = 0;
    while i < n
        invariant
            n == transfers@.len(),
            i <= n,
            forall|k: int|
                0 <= k < i ==> !keyed::holds(
                    transfers@,
                    transfer_key(),
                    k,
                    (collection@, shard_id, to),
                ),
        decreases n - i,
    {
        if transfers[i].1.shard_id == shard_id && transfers[i].1.to == to && transfers[i].0
            == *collection {
            return Some(i);
        }
        i = i + 1;
    }
    None
}

/// Where the transfer with this key is recorded, if it is under way.
fn find_in_flight(
    transfers: &Vec<(String, ShardTransfer)>,
    collection: &String,
    key: &ShardTransferKey,
) -> (found: Option<usize>)
    requires
        keyed::distinct(transfers@, transfer_key()),
    ensures
        match found {
            Some(i) => {
                &&& keyed::holds(
                    transfers@,
                    transfer_key(),
                    i as int,
                    (collection@, key.shard_id, key.to),
                )
                &&& transfers_map(transfers@).contains_key((collection@, key.shard_id, key.to))
                &&& transfers_map(transfers@)[(collection@, key.shard_id, key.to)].0 == key.from
            },
            None => !(transfers_map(transfers@).contains_key((collection@, key.shard_id, key.to))
                && transfers_map(transfers@)[(collection@, key.shard_id, key.to)].0 == key.from),
        },
{
    match find_transfer(transfers, collection, key.shard_id, key.to) {
        Some(i) => {
            proof {
                keyed::lemma_entry(transfers@, transfer_key(), transfer_value(), i as int);
            }
            if transfers[i].1.from == key.from {
                Some(i)
            } else {
                None
            }
        },
        None => None,
    }
}

/// Writes the state of a replica, known or new.
fn put_replica(
    replicas: &mut Vec<(String, ShardId, PeerId, ReplicaState)>,
    collection: &String,
    shard_id: ShardId,
    peer_id: PeerId,
    state: ReplicaState,
)
    requires
        keyed::distinct(old(replicas)@, replica_key()),
    ensures
        keyed::distinct(final(replicas)@, replica_key()),
        replicas_map(final(replicas)@) == replicas_map(old(replicas)@).insert(
            (collection@, shard_id, peer_id),
            state,
        ),
{
    let ghost before = replicas_map(replicas@);
    let ghost k = (collection@, shard_id, peer_id);
    match find_replica(replicas, collection, shard_id, peer_id) {
        Some(i) => {
            proof {
                keyed::lemma_remove(replicas@, replica_key(), replica_value(), i as int);
            }
            replicas.remove(i);
        },
        None => {
            assert(before.remove(k) =~= before);
        },
    }
    let entry = (collection.clone(), shard_id, peer_id, state);
    proof {
        assert(!replicas_map(replicas@).contains_key(k));
        keyed::lemma_push(replicas@, replica_key(), replica_value(), entry);
        assert(before.remove(k).insert(k, state) =~= before.insert(k, state));
    }
    replicas.push(entry);
}

/// The shards of the cluster: the state of every replica and the transfers
/// under way. No replica is recorded twice, and no two transfers of one
/// shard go to one destination.
#[derive(Debug)]
pub struct ShardRegistry {
    replicas: Vec<(String, ShardId, PeerId, ReplicaState)>,
    transfers: Vec<(String, ShardTransfer)>,
}

impl View for ShardRegistry {
    type V = ShardRegistryView;

    closed spec fn view(&self) -> ShardRegistryView {
        ShardRegistryView {
            replicas: replicas_map(self.replicas@),
            transfers: transfers_map(self.transfers@),
        }
    }
}

impl ShardRegistry {
    #[verifier::type_invariant]
    spec fn nothing_twice(self) -> bool {
        &&& keyed::distinct(self.replicas@, replica_key())
        &&& keyed::distinct(self.transfers@, transfer_key())
    }

    /// The registry of a cluster without shards.
    pub fn new() -> (registry: Self)
        ensures
            registry@ == ShardRegistryView::empty(),
    {
        let registry = ShardRegistry { replicas: Vec::new(), transfers: Vec::new() };
        assert(registry@.replicas =~= Map::empty());
        assert(registry@.transfers =~= Map::empty());
        registry
    }

    /// The state of the replica of the shard on the peer, if there is one.
    pub fn replica_state(&self, collection: &String, shard_id: ShardId, peer_id: PeerId) -> (state:
        Option<ReplicaState>)
        ensures
            state == self@.replica_state(collection@, shard_id, peer_id),
    {
        proof {
            use_type_invariant(self);
        }
        match find_replica(&self.replicas, collection, shard_id, peer_id) {
            Some(i) => {
                proof {
                    keyed::lemma_entry(self.replicas@, replica_key(), replica_value(), i as int);
                }
                Some(self.replicas[i].3)
            },
            None => None,
        }
    }

    /// Whether a transfer with this key is under way in the collection.
    pub fn is_in_flight(&self, collection: &String, key: &ShardTransferKey) -> (in_flight: bool)
        ensures
            in_flight == self@.in_flight(collection@, *key),
    {
        proof {
            use_type_invariant(self);
        }
        find_in_flight(&self.transfers, collection, key).is_some()
    }

    /// Applies one message of a shard movement in `collection`, or refuses
    /// it and leaves the registry as it is.
    pub fn apply_transfer(
        &mut self,
        collection: &CollectionId,
        operation: &ShardTransferOperations,
    ) -> (outcome: Result<(), TransferError>)
        ensures
            match old(self)@.apply_transfer(collection@, *operation) {
                Ok(after) => outcome is Ok && final(self)@ == after,
                Err(error) => outcome == Err::<(), _>(error) && final(self)@ == old(self)@,
            },
    {
        proof {
            use_type_invariant(&*self);
        }
        match operation {
            ShardTransferOperations::Start(transfer) => {
                match find_transfer(&self.transfers, collection, transfer.shard_id, transfer.to) {
                    Some(i) => {
                        proof {
                            keyed::lemma_entry(
                                self.transfers@,
                                transfer_key(),
                                transfer_value(),
                                i as int,
                            );
                        }
                        Err(TransferError::Conflict)
                    },
                    None => {
                        let entry = (collection.clone(), *transfer);
                        let mut transfers: Vec<(String, ShardTransfer)> = Vec::new();
                        std::mem::swap(&mut transfers, &mut self.transfers);
                        proof {
                            keyed::lemma_push(
                                transfers@,
                                transfer_key(),
                                transfer_value(),
                                entry,
                            );
                        }
                        transfers.push(entry);
                        self.transfers = transfers;
                        Ok(())
                    },
                }
            },
            ShardTransferOperations::Finish(transfer) => {
                let key = transfer.key();
                match find_in_flight(&self.transfers, collection, &key) {
                    Some(i) => {
                        let mut transfers: Vec<(String, ShardTransfer)> = Vec::new();
                        std::mem::swap(&mut transfers, &mut self.transfers);
                        proof {
                            keyed::lemma_remove(
                                transfers@,
                                transfer_key(),
                                transfer_value(),
                                i as int,
                            );
                        }
                        transfers.remove(i);
                        self.transfers = transfers;
                        let mut replicas: Vec<(String, ShardId, PeerId, ReplicaState)> = Vec::new();
                        std::mem::swap(&mut replicas, &mut self.replicas);
                        put_replica(
                            &mut replicas,
                            collection,
                            transfer.shard_id,
                            transfer.to,
                            ReplicaState::Active,
                        );
                        self.replicas = replicas;
                        Ok(())
                    },
                    None => Err(TransferError::NotFound),
                }
            },
            ShardTransferOperations::Abort { transfer, reason } => {
                match find_in_flight(&self.transfers, collection, transfer) {
                    Some(i) => {
                        let mut transfers: Vec<(String, ShardTransfer)> = Vec::new();
                        std::mem::swap(&mut transfers, &mut self.transfers);
                        proof {
                            keyed::lemma_remove(
                                transfers@,
                                transfer_key(),
                                transfer_value(),
                                i as int,
                            );
                        }
                        transfers.remove(i);
                        self.transfers = transfers;
                        Ok(())
                    },
                    None => Err(TransferError::NotFound),
                }
            },
        }
    }

    /// Applies a change of a replica's state. Where the change names an
    /// expected state and the replica is not in it, the change is dismissed:
    /// nothing is written and no error is raised.
    pub fn apply_replica_state(&mut self, operation: &SetShardReplicaState) -> (update:
        ReplicaUpdate)
        ensures
            final(self)@ == old(self)@.set_replica_state(*operation),
            update == if old(self)@.admits(*operation) {
                ReplicaUpdate::Applied
            } else {
                ReplicaUpdate::Dismissed
            },
    {
        proof {
            use_type_invariant(&*self);
        }
        let admitted = match operation.from_state {
            Some(expected) => {
                match self.replica_state(
                    &operation.collection_name,
                    operation.shard_id,
                    operation.peer_id,
                ) {
                    Some(current) => current == expected,
                    None => false,
                }
            },
            None => true,
        };
        if admitted {
            let mut replicas: Vec<(String, ShardId, PeerId, ReplicaState)> = Vec::new();
            std::mem::swap(&mut replicas, &mut self.replicas);
            put_replica(
                &mut replicas,
                &operation.collection_name,
                operation.shard_id,
                operation.peer_id,
                operation.state,
            );
            self.replicas = replicas;
            ReplicaUpdate::Applied
        } else {
            ReplicaUpdate::Dismissed
        }
    }
}

} // verus!
