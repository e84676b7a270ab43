//! Configuration values that the commands carry: the vectors of a collection,
//! the optional overrides of the service-wide defaults, and the full
//! configuration of an existing collection.
//!
//! A command only carries these values. What an absent override falls back to
//! is decided when the command is applied, not here.

use vstd::prelude::*;
use vstd::std_specs::convert::FromSpecImpl;
use crate::validation::ValidationError;

verus! {

/// Bit pattern of an IEEE 754 double. Two values are the same setting exactly
/// when their bits are the same.
pub type Float64Bits = u64;

/// Bit pattern of an IEEE 754 single.
pub type Float32Bits = u32;

/// How the distance between two vectors is measured.
#[derive(Debug, PartialEq, Eq, Hash, Clone, Copy, Structural)]
pub enum Distance {
    Cosine,
    Euclid,
    Dot,
}

/// Parameters of one vector storage.
#[derive(Debug, PartialEq, Eq, Hash, Clone, Copy, Structural)]
pub struct VectorParams {
    /// Number of dimensions; at least 1.
    pub size: u64,
    pub distance: Distance,
}

/// Vector data config: one unnamed vector per point, or several named ones.
#[derive(Debug, PartialEq, Eq, Hash, Clone)]
pub enum VectorsConfig {
    Single(VectorParams),
    /// Each name occurs once.
    Multi(Vec<(String, VectorParams)>),
}

impl VectorsConfig {
    /// Some vector has no dimension.
    pub open spec fn has_zero_size(self) -> bool {
        match self {
            VectorsConfig::Single(params) => params.size == 0,
            VectorsConfig::Multi(named) => exists|i: int|
                0 <= i < named@.len() && (#[trigger] named@[i]).1.size == 0,
        }
    }

    /// Two vectors share a name.
    pub open spec fn has_duplicate_name(self) -> bool {
        match self {
            VectorsConfig::Single(_) => false,
            VectorsConfig::Multi(named) => exists|i: int, j: int|
                0 <= i < j < named@.len() && (#[trigger] named@[i]).0@ == (#[trigger] named@[j]).0@,
        }
    }

    /// The verdict on this configuration: a vector without dimension comes
    /// before a repeated name.
    pub open spec fn spec_validate(self) -> Result<(), ValidationError> {
        if self.has_zero_size() {
            Err(ValidationError::ZeroVectorSize)
        } else if self.has_duplicate_name() {
            Err(ValidationError::DuplicateVectorName)
        } else {
            Ok(())
        }
    }

    /// Checks that every vector has a dimension and that no name repeats.
    pub fn validate(&self) -> (verdict: Result<(), ValidationError>)
        ensures
            verdict == self.spec_validate(),
    {
        match self {
            VectorsConfig::Single(params) => {
                if params.size == 0 {
                    Err(ValidationError::ZeroVectorSize)
                } else {
                    Ok(())
                }
            },
            VectorsConfig::Multi(named) => {
                let n = named.len();
                let mut k: usize = 0;
                while k < n
                    invariant
                        *self == VectorsConfig::Multi(*named),
                        n == named@.len(),
                        k <= n,
                        forall|i: int| 0 <= i < k ==> (#[trigger] named@[i]).1.size != 0,
                    decreases n - k,
                {
                    if named[k].1.size == 0 {
                        assert(named@[k as int].1.size == 0);
                        return Err(ValidationError::ZeroVectorSize);
                    }
                    k = k + 1;
                }
                assert(!self.has_zero_size());
                let mut j: usize = 0;
                while j < n
                    invariant
                        *self == VectorsConfig::Multi(*named),
                        !self.has_zero_size(),
                        n == named@.len(),
                        j <= n,
                        forall|a: int, b: int|
                            0 <= a < b < j ==> (#[trigger] named@[a]).0@ != (#[trigger] named@[b]).0@,
                    decreases n - j,
                {
                    let mut i: usize = 0;
                    while i < j
                        invariant
                            *self == VectorsConfig::Multi(*named),
                            !self.has_zero_size(),
                            n == named@.len(),
                            j < n,
                            i <= j,
                            forall|a: int| 0 <= a < i ==> (#[trigger] named@[a]).0@ != named@[j as int].0@,
                        decreases j - i,
                    {
                        if named[i].0 == named[j].0 {
                            assert(named@[i as int].0@ == named@[j as int].0@);
                            return Err(ValidationError::DuplicateVectorName);
                        }
                        i = i + 1;
                    }
                    j = j + 1;
                }
                Ok(())
            },
        }
    }
}

/// Overrides of the HNSW index parameters.
#[derive(Debug, PartialEq, Eq, Hash, Clone, Copy, Structural)]
pub struct HnswConfigDiff {
    /// Number of edges per node in the index graph.
    pub m: Option<usize>,
    /// Number of neighbours to consider during the index building.
    pub ef_construct: Option<usize>,
    /// Size in kilobytes below which a full scan is preferred to the index.
    pub full_scan_threshold: Option<usize>,
    /// Number of parallel threads used for background index building.
    pub max_indexing_threads: Option<usize>,
    /// Store the index on disk.
    pub on_disk: Option<bool>,
    /// Number of edges for the additional payload-aware links.
    pub payload_m: Option<usize>,
}

/// Overrides of the write-ahead-log parameters.
#[derive(Debug, PartialEq, Eq, Hash, Clone, Copy, Structural)]
pub struct WalConfigDiff {
    /// Size of a single WAL segment in MB.
    pub wal_capacity_mb: Option<usize>,
    /// Number of WAL segments to create ahead of actually used ones.
    pub wal_segments_ahead: Option<usize>,
}

/// Overrides of the optimizer parameters.
#[derive(Debug, PartialEq, Eq, Hash, Clone, Copy, Structural)]
pub struct OptimizersConfigDiff {
    /// The minimal fraction of deleted vectors in a segment, required to perform segment optimization.
    pub deleted_threshold: Option<Float64Bits>,
    /// The minimal number of vectors in a segment, required to perform segment optimization.
    pub vacuum_min_vector_number: Option<usize>,
    /// Target amount of segments the optimizer will try to keep.
    pub default_segment_number: Option<usize>,
    /// Do not create segments larger than this size (in kilobytes).
    pub max_segment_size: Option<usize>,
    /// Size in kilobytes above which a segment is stored as a memory-mapped file.
    pub memmap_threshold: Option<usize>,
    /// Size in kilobytes above which a segment is indexed.
    pub indexing_threshold: Option<usize>,
    /// Minimum interval between forced flushes.
    pub flush_interval_sec: Option<u64>,
    /// Maximum available threads for optimization workers.
    pub max_optimization_threads: Option<usize>,
}

/// Changes to the base parameters of a collection.
#[derive(Debug, PartialEq, Eq, Hash, Clone, Copy, Structural)]
pub struct CollectionParamsDiff {
    /// Number of replicas for each shard; at least 1 if present.
    pub replication_factor: Option<u32>,
    /// Minimal number of replicas that confirm a write; at least 1 if present.
    pub write_consistency_factor: Option<u32>,
}

impl CollectionParamsDiff {
    /// The verdict on this diff: a factor that is present is at least 1.
    pub open spec fn spec_validate(self) -> Result<(), ValidationError> {
        if self.replication_factor == Some(0u32) {
            Err(ValidationError::ZeroReplicationFactor)
        } else if self.write_consistency_factor == Some(0u32) {
            Err(ValidationError::ZeroWriteConsistencyFactor)
        } else {
            Ok(())
        }
    }

    /// Checks that no factor is asked to be zero.
    pub fn validate(&self) -> (verdict: Result<(), ValidationError>)
        ensures
            verdict == self.spec_validate(),
    {
        if is_zero(self.replication_factor) {
            Err(ValidationError::ZeroReplicationFactor)
        } else if is_zero(self.write_consistency_factor) {
            Err(ValidationError::ZeroWriteConsistencyFactor)
        } else {
            Ok(())
        }
    }
}

/// Whether a count is present and zero.
pub fn is_zero(count: Option<u32>) -> (zero: bool)
    ensures
        zero == (count == Some(0u32)),
{
    match count {
        Some(n) => n == 0,
        None => false,
    }
}

/// Scalar quantization of the stored vectors.
#[derive(Debug, PartialEq, Eq, Hash, Clone, Copy, Structural)]
pub struct ScalarQuantization {
    /// Quantile for quantization; values outside of it are cut off.
    pub quantile: Option<Float32Bits>,
    /// Keep the quantized vectors in RAM whatever the segment's storage is.
    pub always_ram: Option<bool>,
}

/// Quantization parameters.
#[derive(Debug, PartialEq, Eq, Hash, Clone, Copy, Structural)]
pub enum QuantizationConfig {
    Scalar(ScalarQuantization),
}

/// The HNSW index parameters of an existing collection.
#[derive(Debug, PartialEq, Eq, Hash, Clone, Copy, Structural)]
pub struct HnswConfig {
    pub m: usize,
    pub ef_construct: usize,
    pub full_scan_threshold: usize,
    pub max_indexing_threads: usize,
    pub on_disk: Option<bool>,
    pub payload_m: Option<usize>,
}

/// The write-ahead-log parameters of an existing collection.
#[derive(Debug, PartialEq, Eq, Hash, Clone, Copy, Structural)]
pub struct WalConfig {
    pub wal_capacity_mb: usize,
    pub wal_segments_ahead: usize,
}

/// The optimizer parameters of an existing collection.
#[derive(Debug, PartialEq, Eq, Hash, Clone, Copy, Structural)]
pub struct OptimizersConfig {
    pub deleted_threshold: Float64Bits,
    pub vacuum_min_vector_number: usize,
    pub default_segment_number: usize,
    pub max_segment_size: Option<usize>,
    pub memmap_threshold: Option<usize>,
    pub indexing_threshold: usize,
    pub flush_interval_sec: u64,
    pub max_optimization_threads: usize,
}

/// The base parameters of an existing collection. The three counts are at least 1.
#[derive(Debug, PartialEq, Eq, Hash, Clone)]
pub struct CollectionParams {
    pub vectors: VectorsConfig,
    pub shard_number: u32,
    pub replication_factor: u32,
    pub write_consistency_factor: u32,
    pub on_disk_payload: bool,
}

/// The full configuration of an existing collection.
#[derive(Debug, PartialEq, Eq, Hash, Clone)]
pub struct CollectionConfig {
    pub params: CollectionParams,
    pub hnsw_config: HnswConfig,
    pub optimizer_config: OptimizersConfig,
    pub wal_config: WalConfig,
    pub quantization_config: Option<QuantizationConfig>,
}

impl CollectionConfig {
    /// What holds of the configuration of every collection that exists: its
    /// counts are at least 1 and its vectors are in order.
    pub open spec fn well_formed(self) -> bool {
        &&& self.params.shard_number >= 1
        &&& self.params.replication_factor >= 1
        &&& self.params.write_consistency_factor >= 1
        &&& self.params.vectors.spec_validate() is Ok
    }
}

impl HnswConfig {
    /// The diff that sets every parameter to the value this configuration has.
    pub open spec fn as_diff(self) -> HnswConfigDiff {
        HnswConfigDiff {
            m: Some(self.m),
            ef_construct: Some(self.ef_construct),
            full_scan_threshold: Some(self.full_scan_threshold),
            max_indexing_threads: Some(self.max_indexing_threads),
            on_disk: self.on_disk,
            payload_m: self.payload_m,
        }
    }
}

impl From<HnswConfig> for HnswConfigDiff {
    /// The diff that sets every parameter to the value `config` has.
    fn from(config: HnswConfig) -> (diff: Self) {
        HnswConfigDiff {
            m: Some(config.m),
            ef_construct: Some(config.ef_construct),
            full_scan_threshold: Some(config.full_scan_threshold),
            max_indexing_threads: Some(config.max_indexing_threads),
            on_disk: config.on_disk,
            payload_m: config.payload_m,
        }
    }
}

impl FromSpecImpl<HnswConfig> for HnswConfigDiff {
    open spec fn obeys_from_spec() -> bool {
        true
    }

    open spec fn from_spec(config: HnswConfig) -> Self {
        config.as_diff()
    }
}

impl WalConfig {
    /// The diff that sets every parameter to the value this configuration has.
    pub open spec fn as_diff(self) -> WalConfigDiff {
        WalConfigDiff {
            wal_capacity_mb: Some(self.wal_capacity_mb),
            wal_segments_ahead: Some(self.wal_segments_ahead),
        }
    }
}

impl From<WalConfig> for WalConfigDiff {
    /// The diff that sets every parameter to the value `config` has.
    fn from(config: WalConfig) -> (diff: Self) {
        WalConfigDiff {
            wal_capacity_mb: Some(config.wal_capacity_mb),
            wal_segments_ahead: Some(config.wal_segments_ahead),
        }
    }
}

impl FromSpecImpl<WalConfig> for WalConfigDiff {
    open spec fn obeys_from_spec() -> bool {
        true
    }

    open spec fn from_spec(config: WalConfig) -> Self {
        config.as_diff()
    }
}

impl OptimizersConfig {
    /// The diff that sets every parameter to the value this configuration has.
    pub open spec fn as_diff(self) -> OptimizersConfigDiff {
        OptimizersConfigDiff {
            deleted_threshold: Some(self.deleted_threshold),
            vacuum_min_vector_number: Some(self.vacuum_min_vector_number),
            default_segment_number: Some(self.default_segment_number),
            max_segment_size: self.max_segment_size,
            memmap_threshold: self.memmap_threshold,
            indexing_threshold: Some(self.indexing_threshold),
            flush_interval_sec: Some(self.flush_interval_sec),
            max_optimization_threads: Some(self.max_optimization_threads),
        }
    }
}

impl From<OptimizersConfig> for OptimizersConfigDiff {
    /// The diff that sets every parameter to the value `config` has.
    fn from(config: OptimizersConfig) -> (diff: Self) {
        OptimizersConfigDiff {
            deleted_threshold: Some(config.deleted_threshold),
            vacuum_min_vector_number: Some(config.vacuum_min_vector_number),
            default_segment_number: Some(config.default_segment_number),
            max_segment_size: config.max_segment_size,
            memmap_threshold: config.memmap_threshold,
            indexing_threshold: Some(config.indexing_threshold),
            flush_interval_sec: Some(config.flush_interval_sec),
            max_optimization_threads: Some(config.max_optimization_threads),
        }
    }
}

impl FromSpecImpl<OptimizersConfig> for OptimizersConfigDiff {
    open spec fn obeys_from_spec() -> bool {
        true
    }

    open spec fn from_spec(config: OptimizersConfig) -> Self {
        config.as_diff()
    }
}

} // verus!
