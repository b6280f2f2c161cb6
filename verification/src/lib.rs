//! Replicated shard update core: leader selection, write-consistency
//! accounting and failure handling for a set of shard replicas, together with
//! the CPU budget that rations worker slots to background tasks.

pub mod cpu;
pub mod error;
pub mod laws;
pub mod prefix;
pub mod replica_set;
pub mod replica_state;
pub mod tally;
pub mod update;
pub mod version;

pub use crate::cpu::{BudgetBackoff, CpuBudget, CpuPermit};
pub use crate::error::{CollectionError, ReplicaError, ServiceError};
pub use crate::replica_set::{ShardId, ShardReplicaSet, WriteOrdering};
pub use crate::replica_state::{PeerId, ReplicaSetState, ReplicaState};
pub use crate::tally::{ReplicaResult, UpdateTally};
pub use crate::update::{UpdateRoute, UpdateTarget, DEFAULT_SHARD_DEACTIVATION_TIMEOUT_SECS};
pub use crate::version::{can_upgrade_storage, StorageVersion};
