//! What holds of every replica set and of every write, stated over the
//! model that the functions' contracts speak of.

use crate::error::{CollectionError, ReplicaError};
use crate::replica_set::{ReplicaSetModel, WriteOrdering};
use crate::replica_state::{is_max_of, lemma_max_of_unique, PeerId, ReplicaState};
use crate::tally::first_of;
use crate::update::UpdateTarget;
use vstd::prelude::*;

verus! {

/// Where this peer is the highest peer that has a state, whatever the
/// states, it leads every `Strong` write.
pub proof fn lemma_highest_peer_leads_strong(set: ReplicaSetModel)
    requires
        is_max_of(set.states.dom(), set.this_peer_id),
    ensures
        set.leader(WriteOrdering::Strong) == Some(set.this_peer_id),
{
    lemma_max_of_unique(set.states.dom(), set.this_peer_id);
}

/// The leader of a `Strong` write depends on which peers have a state, and
/// on nothing else: it stays the same through every change of a state and
/// of the local overlay, and so through the handling of failures.
pub proof fn lemma_strong_leader_is_stable(
    before: ReplicaSetModel,
    after: ReplicaSetModel,
    peers: Seq<PeerId>,
)
    requires
        before.states.dom() == after.states.dom(),
    ensures
        before.leader(WriteOrdering::Strong) == after.leader(WriteOrdering::Strong),
        before.after_failures(peers).leader(WriteOrdering::Strong) == before.leader(
            WriteOrdering::Strong,
        ),
{
}

/// Where this peer is the highest active peer, it leads every `Medium` write.
pub proof fn lemma_highest_active_peer_leads_medium(set: ReplicaSetModel)
    requires
        is_max_of(set.active_peers(), set.this_peer_id),
    ensures
        set.leader(WriteOrdering::Medium) == Some(set.this_peer_id),
{
    lemma_max_of_unique(set.active_peers(), set.this_peer_id);
}

/// A `Weak` write is led by the peer that receives it, whatever the states.
pub proof fn lemma_weak_leader_is_this_peer(set: ReplicaSetModel)
    ensures
        set.leader(WriteOrdering::Weak) == Some(set.this_peer_id),
{
}

/// A peer that receives writes is in one of the four states that accept
/// them and is not locally disabled; a peer without a state receives none.
pub proof fn lemma_active_or_pending_states(set: ReplicaSetModel, peer: PeerId)
    ensures
        set.is_active_or_pending(peer) <==> {
            &&& set.states.contains_key(peer)
            &&& set.states[peer] is Active || set.states[peer] is Initializing
                || set.states[peer] is Partial || set.states[peer] is Listener
            &&& !set.disabled.contains(peer)
        },
        set.is_active(peer) ==> set.is_active_or_pending(peer),
{
}

/// Every target of a write is a member that receives writes: this peer's
/// own replica or a remote one. It waits as the caller asked, but for a
/// `Listener`, which never waits.
pub proof fn lemma_targets_receive_updates(set: ReplicaSetModel, wait: bool, i: int)
    requires
        0 <= i < set.targets(wait).len(),
    ensures
        set.is_active_or_pending(set.targets(wait)[i].peer_id),
        set.is_member(set.targets(wait)[i].peer_id),
        set.targets(wait)[i].wait == (wait && set.peer_state(set.targets(wait)[i].peer_id) != Some(
            ReplicaState::Listener,
        )),
        set.peer_state(set.targets(wait)[i].peer_id) == Some(ReplicaState::Listener)
            ==> !set.targets(wait)[i].wait,
{
    broadcast use {Seq::lemma_filter_pred, Seq::lemma_filter_contains_rev};

    let local = set.local_targets(wait);
    if i >= local.len() {
        let accepts = |p: PeerId| set.is_active_or_pending(p);
        let kept = set.remotes.filter(accepts);
        let k = i - local.len();
        assert(set.targets(wait)[i] == set.remote_targets(wait)[k]);
        assert(set.remote_targets(wait)[k] == set.target(kept[k], wait, false));
        assert(accepts(kept[k]));
        assert(kept.contains(kept[k]));
        assert(set.remotes.contains(kept[k]));
    }
}

/// A write has no target exactly where no member receives writes: neither
/// this peer's own replica nor any remote one.
pub proof fn lemma_no_target_means_no_receiver(set: ReplicaSetModel, wait: bool)
    ensures
        set.targets(wait).len() == 0 <==> {
            &&& !(set.local && set.is_active_or_pending(set.this_peer_id))
            &&& forall|j: int|
                0 <= j < set.remotes.len() ==> !set.is_active_or_pending(#[trigger] set.remotes[j])
        },
{
    broadcast use {
        Seq::lemma_filter_pred,
        Seq::lemma_filter_contains,
        Seq::lemma_filter_contains_rev,
    };

    let accepts = |p: PeerId| set.is_active_or_pending(p);
    let kept = set.remotes.filter(accepts);
    assert(set.remote_targets(wait).len() == kept.len());
    if kept.len() > 0 {
        assert(accepts(kept[0]));
        assert(kept.contains(kept[0]));
        assert(set.remotes.contains(kept[0]));
    }
    if exists|j: int| 0 <= j < set.remotes.len() && set.is_active_or_pending(#[trigger] set.remotes[j]) {
        let j = choose|j: int|
            0 <= j < set.remotes.len() && set.is_active_or_pending(#[trigger] set.remotes[j]);
        assert(accepts(set.remotes[j]));
        assert(kept.contains(set.remotes[j]));
    }
}

/// The number of acknowledgements that a write needs is the smaller of the
/// write consistency factor and the number of replicas written to: never
/// more than either, one of the two, and at least one where any replica was
/// written to.
pub proof fn lemma_threshold_is_min(set: ReplicaSetModel, dispatched: nat)
    requires
        set.valid(),
    ensures
        set.minimal_success_count(dispatched) <= set.write_consistency_factor,
        set.minimal_success_count(dispatched) <= dispatched,
        set.minimal_success_count(dispatched) == set.write_consistency_factor
            || set.minimal_success_count(dispatched) == dispatched,
        dispatched >= 1 ==> set.minimal_success_count(dispatched) >= 1,
{
}

/// A write returns `Ok` only where an active peer acknowledged it, and then
/// it returns the first acknowledgement.
pub proof fn lemma_ok_has_active_success<R, E>(
    set: ReplicaSetModel,
    successes: Seq<(PeerId, R)>,
    failures: Seq<(PeerId, ReplicaError<E>)>,
    minimal_success_count: nat,
    waited: bool,
    shards_disabled: bool,
)
    requires
        set.verdict(successes, failures, minimal_success_count, waited, shards_disabled) is Ok,
    ensures
        exists|i: int|
            0 <= i < successes.len() && set.states.contains_key((#[trigger] successes[i]).0)
                && set.states[successes[i].0] == ReplicaState::Active && !set.disabled.contains(
                successes[i].0,
            ),
        set.verdict(successes, failures, minimal_success_count, waited, shards_disabled) == Ok::<
            R,
            CollectionError<E>,
        >(successes[0].1),
        waited ==> shards_disabled,
{
    let is_active = |s: (PeerId, R)| set.is_active(s.0);
    assert(successes.any(is_active));
    let i = choose|i: int| 0 <= i < successes.len() && #[trigger] is_active(successes[i]);
    assert(set.states.contains_key(successes[i].0));
}

/// A write with too few acknowledgements and at least one failure, for
/// which nothing was waited, returns the first failure's error as the
/// replica gave it. So does every write that no replica acknowledged.
pub proof fn lemma_quorum_miss_returns_first_error<R, E>(
    set: ReplicaSetModel,
    successes: Seq<(PeerId, R)>,
    failures: Seq<(PeerId, ReplicaError<E>)>,
    shards_disabled: bool,
)
    requires
        set.valid(),
        failures.len() > 0,
        successes.len() < set.minimal_success_count(successes.len() + failures.len()),
    ensures
        set.verdict(
            successes,
            failures,
            set.minimal_success_count(successes.len() + failures.len()),
            false,
            shards_disabled,
        ) == Err::<R, CollectionError<E>>(CollectionError::Replica(failures[0].1)),
        successes.len() == 0 ==> set.minimal_success_count(successes.len() + failures.len()) >= 1,
{
}

/// A write that every replica failed has too few acknowledgements, whatever
/// the write consistency factor: it returns the first failure's error.
pub proof fn lemma_total_failure_returns_first_error<R, E>(
    set: ReplicaSetModel,
    failures: Seq<(PeerId, ReplicaError<E>)>,
    shards_disabled: bool,
)
    requires
        set.valid(),
        failures.len() > 0,
    ensures
        set.verdict(
            Seq::<(PeerId, R)>::empty(),
            failures,
            set.minimal_success_count(failures.len()),
            false,
            shards_disabled,
        ) == Err::<R, CollectionError<E>>(CollectionError::Replica(failures[0].1)),
{
}

/// A write to a single replica that is active and acknowledges needs no
/// wait for deactivation and returns the acknowledgement.
pub proof fn lemma_single_success_returns_without_wait<R, E>(
    set: ReplicaSetModel,
    peer: PeerId,
    result: R,
    shards_disabled: bool,
)
    requires
        set.valid(),
        set.is_active(peer),
    ensures
        set.minimal_success_count(1) == 1,
        !set.must_wait(Seq::<(PeerId, ReplicaError<E>)>::empty()),
        set.verdict(
            seq![(peer, result)],
            Seq::<(PeerId, ReplicaError<E>)>::empty(),
            1,
            false,
            shards_disabled,
        ) == Ok::<R, CollectionError<E>>(result),
{
    let successes = seq![(peer, result)];
    let is_active = |s: (PeerId, R)| set.is_active(s.0);
    assert(is_active(successes[0]));
    assert(successes.any(is_active));
}

/// A wait for deactivation that timed out fails the write with a service
/// error, whatever the replicas answered.
pub proof fn lemma_timed_out_wait_fails<R, E>(
    set: ReplicaSetModel,
    successes: Seq<(PeerId, R)>,
    failures: Seq<(PeerId, ReplicaError<E>)>,
    minimal_success_count: nat,
)
    ensures
        set.verdict(successes, failures, minimal_success_count, true, false) matches Err(
            CollectionError::Service { error, cause },
        ) && error is DeactivationTimedOut && cause == first_of(failures),
{
}

/// Handling failures changes the local overlay and the report queue alone.
/// It keeps the replica set coherent, and it disables no peer that it does
/// not also queue for report.
pub proof fn lemma_failures_keep_coherence(set: ReplicaSetModel, peers: Seq<PeerId>)
    ensures
        set.after_failures(peers).states == set.states,
        set.after_failures(peers).remotes == set.remotes,
        set.after_failures(peers).local == set.local,
        set.coherent() ==> set.after_failures(peers).coherent(),
        forall|p: PeerId| set.disabled.contains(p) ==> set.after_failures(peers).disabled.contains(p),
        forall|p: PeerId|
            set.after_failures(peers).disabled.contains(p) && !set.disabled.contains(p)
                ==> set.deactivated(peers).contains(p),
{
    broadcast use Seq::lemma_filter_contains;

    let after = set.after_failures(peers);
    if set.coherent() {
        assert forall|p: PeerId| after.states.contains_key(p) <==> after.is_member(p) by {
            assert(set.states.contains_key(p) <==> set.is_member(p));
        }
        assert forall|p: PeerId| after.disabled.contains(p) implies after.states.contains_key(
            p,
        ) by {
            if set.disabled.contains(p) {
                assert(set.states.contains_key(p));
            }
        }
    }
    assert forall|p: PeerId| after.disabled.contains(p) && !set.disabled.contains(
        p,
    ) implies set.deactivated(peers).contains(p) by {
        let deactivates = |q: PeerId| set.deactivates(q);
        let j = choose|j: int| 0 <= j < peers.len() && peers[j] == p;
        assert(deactivates(peers[j]));
        assert(peers.filter(deactivates).contains(peers[j]));
    }
}

/// After handling failures, none of the peers that failed in state `Active`
/// or `Initializing` receives writes or counts as active.
pub proof fn lemma_failed_peers_leave_routing(set: ReplicaSetModel, peers: Seq<PeerId>, i: int)
    requires
        0 <= i < peers.len(),
        set.deactivates(peers[i]),
    ensures
        !set.after_failures(peers).is_active(peers[i]),
        !set.after_failures(peers).is_active_or_pending(peers[i]),
{
    assert(peers.contains(peers[i]));
}

/// Stopping to route to a leader that has a state keeps the replica set coherent.
pub proof fn lemma_disabling_keeps_coherence(set: ReplicaSetModel, peer: PeerId)
    requires
        set.coherent(),
        set.states.contains_key(peer),
    ensures
        set.with_disabled(peer).coherent(),
        !set.with_disabled(peer).is_active(peer),
{
    let after = set.with_disabled(peer);
    assert forall|p: PeerId| after.states.contains_key(p) <==> after.is_member(p) by {
        assert(set.states.contains_key(p) <==> set.is_member(p));
    }
    assert forall|p: PeerId| after.disabled.contains(p) implies after.states.contains_key(p) by {
        if set.disabled.contains(p) {
            assert(set.states.contains_key(p));
        }
    }
}

/// The targets of a write are as many as its receivers: with at most one
/// target per remote handle and one for the local replica.
pub proof fn lemma_targets_bounded(set: ReplicaSetModel, wait: bool)
    ensures
        set.targets(wait).len() <= set.remotes.len() + 1,
        forall|i: int|
            0 <= i < set.targets(wait).len() ==> (#[trigger] set.targets(wait)[i]).local == (i
                < set.local_targets(wait).len()),
{
    broadcast use Seq::lemma_filter_len;

    let accepts = |p: PeerId| set.is_active_or_pending(p);
    assert(set.remote_targets(wait).len() == set.remotes.filter(accepts).len());
    assert forall|i: int| 0 <= i < set.targets(wait).len() implies (#[trigger] set.targets(
        wait,
    )[i]).local == (i < set.local_targets(wait).len()) by {
        let local = set.local_targets(wait);
        if i >= local.len() {
            let t: UpdateTarget = set.remote_targets(wait)[i - local.len()];
            assert(set.targets(wait)[i] == t);
        }
    }
}

} // verus!
