//! Placement of the shards of a new collection.

use vstd::prelude::*;
use crate::ids::{PeerId, ShardId};

verus! {

/// Which peers hold each shard of a collection that is about to be created.
#[derive(Debug, PartialEq, Eq, Hash, Clone)]
pub struct ShardDistributionProposal {
    pub distribution: Vec<(ShardId, Vec<PeerId>)>,
}

} // verus!
