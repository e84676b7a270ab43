//! Why a command is refused before it reaches the log.

use vstd::prelude::*;

verus! {

/// The first rule that a malformed command breaks.
#[derive(Debug, PartialEq, Eq, Hash, Clone, Copy, Structural)]
pub enum ValidationError {
    /// A collection is named by the empty string.
    EmptyCollectionName,
    /// A collection is asked to have no shard.
    ZeroShardNumber,
    /// A collection is asked to keep no replica of its shards.
    ZeroReplicationFactor,
    /// A write is asked to be confirmed by no replica.
    ZeroWriteConsistencyFactor,
    /// A vector is asked to have no dimension.
    ZeroVectorSize,
    /// Two vectors of one collection share a name.
    DuplicateVectorName,
}

} // verus!
