//! What the replicas' answers to a write add up to: whether enough of them
//! acknowledged, which failing replicas this process stops routing to,
//! whether the writer waits for their deactivation, and what it returns.

use crate::error::{CollectionError, ReplicaError, ServiceError};
use crate::prefix::{lemma_prefix_any, lemma_prefix_contains};
use crate::replica_set::{ReplicaSetModel, ShardReplicaSet};
use crate::replica_state::{PeerId, ReplicaState};
use crate::update::DEFAULT_SHARD_DEACTIVATION_TIMEOUT_SECS;
use itertools::Itertools;
use vstd::prelude::*;

verus! {

/// The answer of one replica to a write: the peer with what it returned, or
/// the peer with its error.
pub type ReplicaResult<R, E> = Result<(PeerId, R), (PeerId, ReplicaError<E>)>;

/// The `Ok` values of `all`, in order.
pub open spec fn successes_of<T, F>(all: Seq<Result<T, F>>) -> Seq<T> {
    all.filter(|r: Result<T, F>| r is Ok).map_values(|r: Result<T, F>| r->Ok_0)
}

/// The `Err` values of `all`, in order.
pub open spec fn failures_of<T, F>(all: Seq<Result<T, F>>) -> Seq<F> {
    all.filter(|r: Result<T, F>| r is Err).map_values(|r: Result<T, F>| r->Err_0)
}

/// Every result is either a success or a failure.
pub proof fn lemma_partition_len<T, F>(all: Seq<Result<T, F>>)
    ensures
        successes_of(all).len() + failures_of(all).len() == all.len(),
    decreases all.len(),
{
    reveal(Seq::filter);
    if all.len() > 0 {
        lemma_partition_len(all.drop_last());
    }
}

/// Splits results into successes and failures with
/// `itertools::Itertools::partition_result`, which collects the `Ok` values
/// into one list and the `Err` values into another, each in the order in
/// which the iterator yields them.
#[verifier::external_body]
fn partition_result<T, F>(all: Vec<Result<T, F>>) -> (r: (Vec<T>, Vec<F>))
    ensures
        r.0@ == successes_of(all@),
        r.1@ == failures_of(all@),
{
    all.into_iter().partition_result()
}

/// The peers of the given failures, in order.
pub open spec fn failed_peers<E>(failures: Seq<(PeerId, ReplicaError<E>)>) -> Seq<PeerId> {
    failures.map_values(|f: (PeerId, ReplicaError<E>)| f.0)
}

/// The first of `items`, if any.
pub open spec fn first_of<T>(items: Seq<T>) -> Option<T> {
    if items.len() > 0 {
        Some(items[0])
    } else {
        None
    }
}

impl ReplicaSetModel {
    /// How many acknowledgements a write needs that was sent to
    /// `dispatched` replicas: as many as the write consistency factor says,
    /// or one from each replica where those are fewer.
    pub open spec fn minimal_success_count(self, dispatched: nat) -> nat {
        if self.write_consistency_factor <= dispatched {
            self.write_consistency_factor
        } else {
            dispatched
        }
    }

    /// A failed write to `peer` makes this process stop routing to it: the
    /// peer is recorded as `Active` or `Initializing`. In any other state it
    /// is on its way out already.
    pub open spec fn deactivates(self, peer: PeerId) -> bool {
        self.peer_state(peer) == Some(ReplicaState::Active) || self.peer_state(peer) == Some(
            ReplicaState::Initializing,
        )
    }

    /// A failed write to `peer` makes the writer wait for the peer's
    /// deactivation: the failure deactivates the peer, and the error is
    /// transient or the peer is `Initializing`.
    pub open spec fn forces_wait(self, peer: PeerId, transient: bool) -> bool {
        self.deactivates(peer) && (transient || self.peer_state(peer) == Some(
            ReplicaState::Initializing,
        ))
    }

    /// One of the failures makes the writer wait.
    pub open spec fn must_wait<E>(self, failures: Seq<(PeerId, ReplicaError<E>)>) -> bool {
        failures.any(|f: (PeerId, ReplicaError<E>)| self.forces_wait(f.0, f.1.transient))
    }

    /// Those of `peers` that a failure deactivates, in order.
    pub open spec fn deactivated(self, peers: Seq<PeerId>) -> Seq<PeerId> {
        peers.filter(|p: PeerId| self.deactivates(p))
    }

    /// The replica set after it has handled failures of `peers`: those that
    /// a failure deactivates are locally disabled and queued for report.
    pub open spec fn after_failures(self, peers: Seq<PeerId>) -> ReplicaSetModel {
        ReplicaSetModel {
            disabled: Set::new(
                |p: PeerId| self.disabled.contains(p) || (peers.contains(p) && self.deactivates(p)),
            ),
            reported: self.reported + self.deactivated(peers),
            ..self
        }
    }

    /// One of the successes comes from a peer that is active.
    pub open spec fn has_active_success<R>(self, successes: Seq<(PeerId, R)>) -> bool {
        successes.any(|s: (PeerId, R)| self.is_active(s.0))
    }

    /// What a write returns, given the replicas' answers, the number of
    /// acknowledgements asked for, whether the writer waited for
    /// deactivation, and whether that wait saw the failing replicas
    /// deactivated.
    pub open spec fn verdict<R, E>(
        self,
        successes: Seq<(PeerId, R)>,
        failures: Seq<(PeerId, ReplicaError<E>)>,
        minimal_success_count: nat,
        waited: bool,
        shards_disabled: bool,
    ) -> Result<R, CollectionError<E>> {
        if waited && !shards_disabled {
            Err(
                CollectionError::Service {
                    error: ServiceError::DeactivationTimedOut {
                        timeout_secs: DEFAULT_SHARD_DEACTIVATION_TIMEOUT_SECS,
                    },
                    cause: first_of(failures),
                },
            )
        } else if failures.len() > 0 && successes.len() < minimal_success_count {
            Err(CollectionError::Replica(failures[0].1))
        } else if !self.has_active_success(successes) {
            Err(
                CollectionError::Service {
                    error: ServiceError::NoActiveSuccess,
                    cause: first_of(failures),
                },
            )
        } else {
            Ok(successes[0].1)
        }
    }
}

/// The replicas' answers to one write, sorted and counted.
pub struct UpdateTally<R, E> {
    /// The acknowledgements, in the order in which they came.
    pub successes: Vec<(PeerId, R)>,
    /// The failures, in the order in which they came.
    pub failures: Vec<(PeerId, ReplicaError<E>)>,
    /// How many acknowledgements the write needs.
    pub minimal_success_count: usize,
    /// Whether the writer has to wait until consensus has deactivated the
    /// failing replicas before it returns.
    pub wait_for_deactivation: bool,
}

impl<R, E> UpdateTally<R, E> {
    /// Whether at least as many replicas acknowledged as the write needs.
    pub open spec fn quorum(&self) -> bool {
        self.successes@.len() >= self.minimal_success_count
    }

    /// The peers that failed, in the order in which their failures came: the
    /// peers whose deactivation the writer waits for.
    pub fn failed_peer_ids(&self) -> (r: Vec<PeerId>)
        ensures
            r@ == failed_peers(self.failures@),
    {
        let mut peers: Vec<PeerId> = Vec::new();
        let mut i: usize = 0;
        while i < self.failures.len()
            invariant
                i <= self.failures.len(),
                peers@ == failed_peers(self.failures@.take(i as int)),
            decreases self.failures.len() - i,
        {
            peers.push(self.failures[i].0);
            proof {
                assert(self.failures@.take(i + 1) =~= self.failures@.take(i as int).push(
                    self.failures@[i as int],
                ));
                assert(peers@ =~= failed_peers(self.failures@.take(i + 1)));
            }
            i += 1;
        }
        proof {
            assert(self.failures@.take(self.failures.len() as int) =~= self.failures@);
        }
        peers
    }
}

impl ShardReplicaSet {
    /// Handles the failures of a write that enough replicas acknowledged.
    /// Each failing peer that is recorded as `Active` or `Initializing` is
    /// locally disabled and queued for report to consensus; the others are
    /// passed over. Returns whether the writer has to wait for deactivation:
    /// whether one of the peers so disabled failed with a transient error or
    /// is `Initializing`.
    pub fn handle_failed_replicas<E>(&mut self, failures: &Vec<(PeerId, ReplicaError<E>)>) -> (r:
        bool)
        ensures
            r == old(self)@.must_wait(failures@),
            final(self)@ == old(self)@.after_failures(failed_peers(failures@)),
    {
        let ghost start = self@;
        let ghost peers = failed_peers(failures@);
        let ghost deactivates = |p: PeerId| start.deactivates(p);
        let ghost forces = |f: (PeerId, ReplicaError<E>)| start.forces_wait(f.0, f.1.transient);
        let mut wait_for_deactivation = false;
        let mut i: usize = 0;
        proof {
            reveal(Seq::filter);
            assert(peers.take(0).filter(deactivates) =~= Seq::<PeerId>::empty());
            assert(start.after_failures(peers.take(0)).disabled =~= start.disabled);
            assert(start.after_failures(peers.take(0)).reported =~= start.reported);
        }
        while i < failures.len()
            invariant
                i <= failures.len(),
                start == old(self)@,
                peers == failed_peers(failures@),
                deactivates == |p: PeerId| start.deactivates(p),
                forces == |f: (PeerId, ReplicaError<E>)| start.forces_wait(f.0, f.1.transient),
                self@ == start.after_failures(peers.take(i as int)),
                wait_for_deactivation == failures@.take(i as int).any(forces),
            decreases failures.len() - i,
        {
            let peer_id: PeerId = failures[i].0;
            let transient = failures[i].1.transient;
            let ghost before = peers.take(i as int);
            let ghost longer = peers.take(i + 1);
            proof {
                reveal(Seq::filter);
                assert(longer.drop_last() =~= before);
                assert(longer.last() == peer_id);
                assert forall|p: PeerId| longer.contains(p) <==> (before.contains(p) || p
                    == peer_id) by {
                    lemma_prefix_contains(peers, i as int, p);
                }
                lemma_prefix_any(failures@, i as int, forces);
            }
            let deactivate = match self.peer_state(peer_id) {
                Some(ReplicaState::Active) => {
                    if transient {
                        wait_for_deactivation = true;
                    }
                    true
                },
                Some(ReplicaState::Initializing) => {
                    wait_for_deactivation = true;
                    true
                },
                _ => false,
            };
            if deactivate {
                self.add_locally_disabled(peer_id);
                proof {
                    assert(longer.filter(deactivates) == before.filter(deactivates).push(peer_id));
                    assert(self@.disabled =~= start.after_failures(longer).disabled);
                    assert(self@.reported =~= start.after_failures(longer).reported);
                }
            } else {
                proof {
                    assert(longer.filter(deactivates) == before.filter(deactivates));
                    assert(self@.disabled =~= start.after_failures(longer).disabled);
                }
            }
            i += 1;
        }
        proof {
            assert(peers.take(failures.len() as int) =~= peers);
            assert(failures@.take(failures.len() as int) =~= failures@);
        }
        wait_for_deactivation
    }

    /// Sorts and counts the replicas' answers to a write. The write needs as
    /// many acknowledgements as the write consistency factor says, or one
    /// from every replica written to where those are fewer. Where it has
    /// them, the failures are handled, and the writer has to wait for
    /// deactivation if it asked to wait and a failure calls for it. Where it
    /// has not, the replica set is left as it was.
    pub fn update_results<R, E>(&mut self, all_res: Vec<ReplicaResult<R, E>>, wait: bool) -> (r:
        UpdateTally<R, E>)
        ensures
            r.successes@ == successes_of(all_res@),
            r.failures@ == failures_of(all_res@),
            r.successes@.len() + r.failures@.len() == all_res@.len(),
            r.minimal_success_count == old(self)@.minimal_success_count(all_res@.len()),
            r.wait_for_deactivation == (r.quorum() && wait && old(self)@.must_wait(r.failures@)),
            final(self)@ == if r.quorum() {
                old(self)@.after_failures(failed_peers(r.failures@))
            } else {
                old(self)@
            },
    {
        let total_results = all_res.len();
        let write_consistency_factor = self.write_consistency_factor() as usize;
        let minimal_success_count = if write_consistency_factor <= total_results {
            write_consistency_factor
        } else {
            total_results
        };
        proof {
            lemma_partition_len(all_res@);
        }
        let (successes, failures) = partition_result(all_res);

        let mut wait_for_deactivation = false;
        if successes.len() >= minimal_success_count {
            let failing = self.handle_failed_replicas(&failures);
            wait_for_deactivation = wait && failing && failures.len() > 0;
        }
        UpdateTally { successes, failures, minimal_success_count, wait_for_deactivation }
    }

    /// Concludes a write from its tally. `shards_disabled` says whether the
    /// wait for deactivation, where the tally asked for one, saw every
    /// failing replica deactivated in time. A wait that timed out fails the
    /// write. Else a write with too few acknowledgements fails with the
    /// first failure's error, untouched; one that no active replica
    /// acknowledged fails too; any other returns the first acknowledgement.
    pub fn update_outcome<R, E>(&self, tally: UpdateTally<R, E>, shards_disabled: bool) -> (r:
        Result<R, CollectionError<E>>)
        ensures
            r == self@.verdict(
                tally.successes@,
                tally.failures@,
                tally.minimal_success_count as nat,
                tally.wait_for_deactivation,
                shards_disabled,
            ),
            r is Ok ==> exists|i: int|
                0 <= i < tally.successes@.len() && self@.peer_state(
                    (#[trigger] tally.successes@[i]).0,
                ) == Some(ReplicaState::Active),
    {
        let UpdateTally { mut successes, mut failures, minimal_success_count, wait_for_deactivation } =
            tally;
        let ghost all_successes = successes@;
        let ghost all_failures = failures@;
        let ghost is_active = |s: (PeerId, R)| self@.is_active(s.0);

        if wait_for_deactivation && !shards_disabled {
            let cause = if failures.len() > 0 {
                Some(failures.swap_remove(0))
            } else {
                None
            };
            return Err(
                CollectionError::Service {
                    error: ServiceError::DeactivationTimedOut {
                        timeout_secs: DEFAULT_SHARD_DEACTIVATION_TIMEOUT_SECS,
                    },
                    cause,
                },
            );
        }
        if failures.len() > 0 && successes.len() < minimal_success_count {
            let (_peer_id, err) = failures.swap_remove(0);
            return Err(CollectionError::Replica(err));
        }
        let mut active_success = false;
        let mut i: usize = 0;
        while i < successes.len()
            invariant
                i <= successes.len(),
                successes@ == all_successes,
                is_active == |s: (PeerId, R)| self@.is_active(s.0),
                active_success == all_successes.take(i as int).any(is_active),
            decreases successes.len() - i,
        {
            let active = self.peer_is_active(successes[i].0);
            proof {
                lemma_prefix_any(all_successes, i as int, is_active);
            }
            active_success = active_success || active;
            i += 1;
        }
        proof {
            assert(all_successes.take(successes.len() as int) =~= all_successes);
        }
        if !active_success {
            let cause = if failures.len() > 0 {
                Some(failures.swap_remove(0))
            } else {
                None
            };
            return Err(CollectionError::Service { error: ServiceError::NoActiveSuccess, cause });
        }
        let (_peer_id, res) = successes.swap_remove(0);
        Ok(res)
    }
}

} // verus!
