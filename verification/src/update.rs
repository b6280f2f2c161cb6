//! Writing to a replica set: where a write is routed, which replicas it is
//! sent to, and what the replicas' answers add up to.
//!
//! Sending a write to a replica and waiting for consensus are the caller's
//! work. Each function here decides one step from the state of the replica
//! set and from what the caller's last step brought back.

use crate::error::{CollectionError, ReplicaError, ServiceError};
use crate::replica_set::{ReplicaSetModel, ShardReplicaSet, WriteOrdering};
use crate::replica_state::{PeerId, ReplicaState};
use vstd::prelude::*;

verus! {

/// How long a writer waits for consensus to deactivate failing replicas, in seconds.
pub const DEFAULT_SHARD_DEACTIVATION_TIMEOUT_SECS: u64 = 30;

/// One replica that a write is sent to.
#[derive(Clone, Copy, Debug, PartialEq, Eq, Structural)]
pub struct UpdateTarget {
    /// The peer that holds the replica.
    pub peer_id: PeerId,
    /// Whether to wait until the replica has applied the write.
    pub wait: bool,
    /// Whether the replica is this peer's own.
    pub local: bool,
}

/// Where a write goes first.
#[derive(Clone, Copy, Debug, PartialEq, Eq, Structural)]
pub enum UpdateRoute {
    /// This peer leads: it sends the write to the replicas itself. Where
    /// `ordered` is set, it lets one such write run at a time.
    Local { ordered: bool },
    /// Another peer leads: the write is forwarded through the remote handle
    /// at index `remote`.
    Forward { leader: PeerId, remote: usize },
}

/// `i` is the first index at which `peers` holds `peer`.
pub open spec fn is_first_index_of(peers: Seq<PeerId>, peer: PeerId, i: int) -> bool {
    &&& 0 <= i < peers.len()
    &&& peers[i] == peer
    &&& forall|j: int| 0 <= j < i ==> peers[j] != peer
}

impl ReplicaSetModel {
    /// Whether a write to `peer` waits until it is applied: never for a
    /// `Listener`, else as the caller asked.
    pub open spec fn effective_wait(self, peer: PeerId, wait: bool) -> bool {
        wait && self.peer_state(peer) != Some(ReplicaState::Listener)
    }

    /// The target that stands for `peer`.
    pub open spec fn target(self, peer: PeerId, wait: bool, local: bool) -> UpdateTarget {
        UpdateTarget { peer_id: peer, wait: self.effective_wait(peer, wait), local }
    }

    /// This peer's own replica, where it hosts one that receives writes.
    pub open spec fn local_targets(self, wait: bool) -> Seq<UpdateTarget> {
        if self.local && self.is_active_or_pending(self.this_peer_id) {
            seq![self.target(self.this_peer_id, wait, true)]
        } else {
            Seq::empty()
        }
    }

    /// The remote replicas that receive writes, in handle order.
    pub open spec fn remote_targets(self, wait: bool) -> Seq<UpdateTarget> {
        self.remotes.filter(|p: PeerId| self.is_active_or_pending(p)).map_values(
            |p: PeerId| self.target(p, wait, false),
        )
    }

    /// Every replica that a write is sent to: the local one first.
    pub open spec fn targets(self, wait: bool) -> Seq<UpdateTarget> {
        self.local_targets(wait) + self.remote_targets(wait)
    }

    /// Whether a write is applied to the local replica alone, and with what
    /// wait: the local state must accept writes; the local overlay is not asked.
    pub open spec fn local_update(self, wait: bool) -> Option<bool> {
        if self.local && (self.peer_state(self.this_peer_id) matches Some(state)
            && state.accepts_updates()) {
            Some(self.effective_wait(self.this_peer_id, wait))
        } else {
            None
        }
    }
}

impl ShardReplicaSet {
    /// Decides a write to the local replica alone, without any remote:
    /// `Some(w)` where the write is to be applied, waiting as `w` says;
    /// `None` where no local update is applied.
    pub fn update_local(&self, wait: bool) -> (r: Option<bool>)
        ensures
            r == self@.local_update(wait),
    {
        if self.has_local() {
            match self.peer_state(self.this_peer_id()) {
                Some(ReplicaState::Active | ReplicaState::Partial | ReplicaState::Initializing) => {
                    Some(wait)
                },
                Some(ReplicaState::Listener) => Some(false),
                Some(ReplicaState::PartialSnapshot | ReplicaState::Dead) | None => None,
            }
        } else {
            None
        }
    }

    /// Finds the remote handle of the leader that a write is forwarded to:
    /// the first handle of that peer, or `LeaderRemoved` where there is none.
    pub fn forward_update(&self, leader_peer: PeerId) -> (r: Result<usize, ServiceError>)
        ensures
            match r {
                Ok(i) => is_first_index_of(self@.remotes, leader_peer, i as int),
                Err(e) => e == (ServiceError::LeaderRemoved { leader: leader_peer })
                    && !self@.remotes.contains(leader_peer),
            },
    {
        let remotes = self.remotes();
        let mut i: usize = 0;
        while i < remotes.len()
            invariant
                i <= remotes.len(),
                remotes@ == self@.remotes,
                forall|j: int| 0 <= j < i ==> remotes[j] != leader_peer,
            decreases remotes.len() - i,
        {
            if remotes[i] == leader_peer {
                return Ok(i);
            }
            i += 1;
        }
        Err(ServiceError::LeaderRemoved { leader: leader_peer })
    }

    /// Routes a write of the given ordering. Without a leader the write
    /// fails. Where this peer leads, the write stays here, one at a time
    /// unless the ordering is `Weak`. Else it is forwarded to the leader, and
    /// fails where the leader has no remote handle.
    pub fn update_with_consistency(&self, ordering: WriteOrdering) -> (r: Result<
        UpdateRoute,
        ServiceError,
    >)
        ensures
            match self@.leader(ordering) {
                None => r == Err::<UpdateRoute, ServiceError>(ServiceError::NoLeader { ordering }),
                Some(leader) => if leader == self@.this_peer_id {
                    r == Ok::<UpdateRoute, ServiceError>(
                        UpdateRoute::Local { ordered: !(ordering is Weak) },
                    )
                } else {
                    match r {
                        Ok(route) => route matches UpdateRoute::Forward { leader: to, remote }
                            && to == leader && is_first_index_of(
                            self@.remotes,
                            leader,
                            remote as int,
                        ),
                        Err(e) => e == (ServiceError::LeaderRemoved { leader })
                            && !self@.remotes.contains(leader),
                    }
                },
            },
    {
        match self.leader_peer_for_update(ordering) {
            None => Err(ServiceError::NoLeader { ordering }),
            Some(leader_peer) => {
                if leader_peer == self.this_peer_id() {
                    let ordered = match ordering {
                        WriteOrdering::Weak => false,
                        WriteOrdering::Medium | WriteOrdering::Strong => true,
                    };
                    Ok(UpdateRoute::Local { ordered })
                } else {
                    match self.forward_update(leader_peer) {
                        Ok(remote) => Ok(UpdateRoute::Forward { leader: leader_peer, remote }),
                        Err(e) => Err(e),
                    }
                }
            },
        }
    }

    /// Takes what the leader answered a forwarded write with. A success is
    /// handed on, and so is an error that is not transient. After a transient
    /// error this process stops routing to the leader, queues it for report,
    /// and fails with `ForwardFailed`, the leader's error as its cause.
    pub fn forward_outcome<R, E>(
        &mut self,
        leader_peer: PeerId,
        ordering: WriteOrdering,
        result: Result<R, ReplicaError<E>>,
    ) -> (r: Result<R, CollectionError<E>>)
        ensures
            match result {
                Ok(done) => r == Ok::<R, CollectionError<E>>(done) && final(self)@ == old(self)@,
                Err(err) => if err.transient {
                    &&& r == Err::<R, CollectionError<E>>(
                        CollectionError::Service {
                            error: ServiceError::ForwardFailed { leader: leader_peer, ordering },
                            cause: Some((leader_peer, err)),
                        },
                    )
                    &&& final(self)@ == old(self)@.with_disabled(leader_peer)
                } else {
                    &&& r == Err::<R, CollectionError<E>>(CollectionError::Replica(err))
                    &&& final(self)@ == old(self)@
                },
            },
    {
        match result {
            Ok(done) => Ok(done),
            Err(err) => {
                if err.transient {
                    self.add_locally_disabled(leader_peer);
                    Err(
                        CollectionError::Service {
                            error: ServiceError::ForwardFailed { leader: leader_peer, ordering },
                            cause: Some((leader_peer, err)),
                        },
                    )
                } else {
                    Err(CollectionError::Replica(err))
                }
            },
        }
    }

    /// Plans the fan-out of a write that this peer leads: the replicas to
    /// send it to, the local one first, each with the wait that holds for it.
    /// Fails with `NoActiveReplica` where there is none to send to.
    pub fn update(&self, wait: bool) -> (r: Result<Vec<UpdateTarget>, ServiceError>)
        ensures
            match r {
                Ok(targets) => targets@ == self@.targets(wait) && targets@.len() > 0,
                Err(e) => e == ServiceError::NoActiveReplica && self@.targets(wait).len() == 0,
            },
    {
        let this_peer_id = self.this_peer_id();
        let remotes = self.remotes();
        let mut targets: Vec<UpdateTarget> = Vec::new();

        if self.has_local() && self.peer_is_active_or_pending(this_peer_id) {
            targets.push(self.target_for(this_peer_id, wait, true));
        }
        assert(targets@ =~= self@.local_targets(wait));

        let ghost accepts = |p: PeerId| self@.is_active_or_pending(p);
        let ghost to_target = |p: PeerId| self@.target(p, wait, false);
        let mut i: usize = 0;
        while i < remotes.len()
            invariant
                i <= remotes.len(),
                remotes@ == self@.remotes,
                accepts == |p: PeerId| self@.is_active_or_pending(p),
                to_target == |p: PeerId| self@.target(p, wait, false),
                targets@ == self@.local_targets(wait) + remotes@.take(i as int).filter(
                    accepts,
                ).map_values(to_target),
            decreases remotes.len() - i,
        {
            let peer_id: PeerId = remotes[i];
            let ghost before = remotes@.take(i as int);
            let ghost longer = remotes@.take(i + 1);
            proof {
                reveal(Seq::filter);
                assert(longer.drop_last() =~= before);
                assert(longer.last() == peer_id);
            }
            if self.peer_is_active_or_pending(peer_id) {
                targets.push(self.target_for(peer_id, wait, false));
                proof {
                    assert(longer.filter(accepts) == before.filter(accepts).push(peer_id));
                    assert(longer.filter(accepts).map_values(to_target) =~= before.filter(
                        accepts,
                    ).map_values(to_target).push(to_target(peer_id)));
                    assert(targets@ =~= self@.local_targets(wait) + longer.filter(
                        accepts,
                    ).map_values(to_target));
                }
            } else {
                assert(longer.filter(accepts) == before.filter(accepts));
            }
            i += 1;
        }
        proof {
            assert(remotes@.take(remotes.len() as int) =~= remotes@);
        }

        if targets.len() == 0 {
            Err(ServiceError::NoActiveReplica)
        } else {
            Ok(targets)
        }
    }

    /// The target that stands for `peer_id`.
    fn target_for(&self, peer_id: PeerId, wait: bool, local: bool) -> (r: UpdateTarget)
        ensures
            r == self@.target(peer_id, wait, local),
    {
        let listener = match self.peer_state(peer_id) {
            Some(ReplicaState::Listener) => true,
            _ => false,
        };
        UpdateTarget { peer_id, wait: wait && !listener, local }
    }
}

} // verus!
