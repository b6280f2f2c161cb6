//! What a write to a replica set can fail with.

use crate::replica_set::WriteOrdering;
use crate::replica_state::PeerId;
use vstd::prelude::*;

verus! {

/// An error that one replica answered a write with. `E` is the replica's own
/// error, carried through untouched.
#[derive(Debug, PartialEq, Eq)]
pub struct ReplicaError<E> {
    /// Whether the cause may pass by itself: a network blip, a timeout,
    /// exhausted resources. A malformed or rejected write is not transient.
    pub transient: bool,
    /// The replica's own error.
    pub error: E,
}

/// A routing or consistency failure that the replica set itself raises.
#[derive(Clone, Copy, Debug, PartialEq, Eq, Structural)]
pub enum ServiceError {
    /// No peer leads a write of this ordering.
    NoLeader { ordering: WriteOrdering },
    /// The leader has no remote handle here any more.
    LeaderRemoved { leader: PeerId },
    /// The leader answered the forwarded write with a transient error.
    ForwardFailed { leader: PeerId, ordering: WriteOrdering },
    /// No replica is in a state to receive the write.
    NoActiveReplica,
    /// Enough replicas acknowledged, but consensus did not deactivate the
    /// failing ones within the time allowed.
    DeactivationTimedOut { timeout_secs: u64 },
    /// Enough replicas acknowledged, but no active one among them.
    NoActiveSuccess,
}

impl ServiceError {
    /// The text of `description`.
    pub open spec fn description_text(self) -> Seq<char> {
        match self {
            ServiceError::NoLeader { .. } => "no leader"@,
            ServiceError::LeaderRemoved { .. } => "removed from replica set"@,
            ServiceError::ForwardFailed { .. } => "forwarding to the leader failed"@,
            ServiceError::NoActiveReplica => "no active replica"@,
            ServiceError::DeactivationTimedOut {
                ..
            } => "deactivation timed out; consistency not guaranteed"@,
            ServiceError::NoActiveSuccess => "no Active replica succeeded; consistency not guaranteed"@,
        }
    }

    /// A short text that says what went wrong.
    pub fn description(&self) -> (r: &'static str)
        ensures
            r@ == self.description_text(),
    {
        match self {
            ServiceError::NoLeader { .. } => "no leader",
            ServiceError::LeaderRemoved { .. } => "removed from replica set",
            ServiceError::ForwardFailed { .. } => "forwarding to the leader failed",
            ServiceError::NoActiveReplica => "no active replica",
            ServiceError::DeactivationTimedOut {
                ..
            } => "deactivation timed out; consistency not guaranteed",
            ServiceError::NoActiveSuccess => "no Active replica succeeded; consistency not guaranteed",
        }
    }
}

/// The error of a write to a replica set.
#[derive(Debug, PartialEq, Eq)]
pub enum CollectionError<E> {
    /// The replica set could not route the write or vouch for its
    /// consistency. `cause` is the replica failure behind it, where there is
    /// one: the peer and what it answered.
    Service { error: ServiceError, cause: Option<(PeerId, ReplicaError<E>)> },
    /// Too few replicas acknowledged: the first failing replica's error, as
    /// the replica gave it.
    Replica(ReplicaError<E>),
}

impl<E> CollectionError<E> {
    /// Whether the replica set itself raised the error.
    pub fn is_service_error(&self) -> (r: bool)
        ensures
            r == (self is Service),
    {
        match self {
            CollectionError::Service { .. } => true,
            CollectionError::Replica(_) => false,
        }
    }
}

} // verus!
