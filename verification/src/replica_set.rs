//! The replica set of one shard as seen from one peer: who the replicas are,
//! in what state each is, which of them this process has stopped routing to,
//! and which peer leads a write of a given ordering.

use crate::prefix::lemma_prefix_contains;
use crate::replica_state::{
    highest_of, max_of, none_active, state_of, PeerId, ReplicaSetState, ReplicaState,
};
use std::collections::HashSet;
use vstd::prelude::*;

verus! {

/// Identifier of a shard within its collection.
pub type ShardId = u32;

/// How strictly a write is ordered against other writes to the same shard.
#[derive(Clone, Copy, Debug, PartialEq, Eq, Structural)]
pub enum WriteOrdering {
    /// No coordination: the receiving peer applies and fans out the write.
    Weak,
    /// Writes go through the highest peer that is active.
    Medium,
    /// Writes go through the highest peer of the replica set, alive or not.
    Strong,
}

/// What a replica set is, mathematically. Contracts speak of this model.
pub struct ReplicaSetModel {
    /// The peer this process runs as.
    pub this_peer_id: PeerId,
    /// The shard the replicas hold.
    pub shard_id: ShardId,
    /// The collection the shard belongs to.
    pub collection_id: Seq<char>,
    /// Whether this peer hosts a replica itself.
    pub local: bool,
    /// The peers reached through a remote handle, in handle order.
    pub remotes: Seq<PeerId>,
    /// The state of each member, as last told by consensus.
    pub states: Map<PeerId, ReplicaState>,
    /// The peers this process has stopped routing to.
    pub disabled: Set<PeerId>,
    /// How many replicas must acknowledge a write.
    pub write_consistency_factor: nat,
    /// How many replicas are written to at once, if bounded.
    pub update_concurrency: Option<nat>,
    /// The peers whose failure is still to be reported to consensus, oldest first.
    pub reported: Seq<PeerId>,
}

impl ReplicaSetModel {
    /// The state recorded for `peer`, if any.
    pub open spec fn peer_state(self, peer: PeerId) -> Option<ReplicaState> {
        state_of(self.states, peer)
    }

    /// `peer` is recorded as `Active` and not locally disabled.
    pub open spec fn is_active(self, peer: PeerId) -> bool {
        self.peer_state(peer) == Some(ReplicaState::Active) && !self.disabled.contains(peer)
    }

    /// `peer` is in a state that accepts writes and not locally disabled.
    pub open spec fn is_active_or_pending(self, peer: PeerId) -> bool {
        &&& self.peer_state(peer) matches Some(state) && state.accepts_updates()
        &&& !self.disabled.contains(peer)
    }

    /// The peers for which `is_active` holds.
    pub open spec fn active_peers(self) -> Set<PeerId> {
        Set::new(|p: PeerId| self.is_active(p))
    }

    /// The peer that leads a write of the given ordering.
    pub open spec fn leader(self, ordering: WriteOrdering) -> Option<PeerId> {
        match ordering {
            WriteOrdering::Weak => Some(self.this_peer_id),
            WriteOrdering::Medium => max_of(self.active_peers()),
            WriteOrdering::Strong => max_of(self.states.dom()),
        }
    }

    /// The peers that hold a replica: this peer if it hosts one, and the remotes.
    pub open spec fn is_member(self, peer: PeerId) -> bool {
        (self.local && peer == self.this_peer_id) || self.remotes.contains(peer)
    }

    /// The state table and the local overlay agree with the membership:
    /// exactly the members have a state, and only peers with a state are
    /// locally disabled.
    pub open spec fn coherent(self) -> bool {
        &&& forall|p: PeerId| self.states.contains_key(p) <==> self.is_member(p)
        &&& forall|p: PeerId| self.disabled.contains(p) ==> self.states.contains_key(p)
    }

    /// At least one acknowledgement is asked for, and a bound on concurrent
    /// writes admits at least one. Every replica set is made so, and no
    /// function changes either number.
    pub open spec fn valid(self) -> bool {
        &&& self.write_consistency_factor >= 1
        &&& self.update_concurrency matches Some(c) ==> c >= 1
    }

    /// `peer` was added to the local overlay and queued for report.
    pub open spec fn with_disabled(self, peer: PeerId) -> ReplicaSetModel {
        ReplicaSetModel {
            disabled: self.disabled.insert(peer),
            reported: self.reported.push(peer),
            ..self
        }
    }
}

/// The replica set of one shard, as one peer holds it.
pub struct ShardReplicaSet {
    this_peer_id: PeerId,
    shard_id: ShardId,
    collection_id: String,
    local: bool,
    remotes: Vec<PeerId>,
    replica_state: ReplicaSetState,
    locally_disabled: HashSet<PeerId>,
    write_consistency_factor: u32,
    update_concurrency: Option<usize>,
    peer_failures: Vec<PeerId>,
}

impl View for ShardReplicaSet {
    type V = ReplicaSetModel;

    closed spec fn view(&self) -> ReplicaSetModel {
        ReplicaSetModel {
            this_peer_id: self.this_peer_id,
            shard_id: self.shard_id,
            collection_id: self.collection_id@,
            local: self.local,
            remotes: self.remotes@,
            states: self.replica_state@,
            disabled: self.locally_disabled@,
            write_consistency_factor: self.write_consistency_factor as nat,
            update_concurrency: match self.update_concurrency {
                Some(c) => Some(c as nat),
                None => None,
            },
            reported: self.peer_failures@,
        }
    }
}

impl ShardReplicaSet {
    /// A replica set whose members are all recorded as `Dead`, as they are
    /// until consensus activates them.
    pub fn new(
        this_peer_id: PeerId,
        collection_id: String,
        shard_id: ShardId,
        local: bool,
        remotes: Vec<PeerId>,
        write_consistency_factor: u32,
        update_concurrency: Option<usize>,
    ) -> (r: Self)
        requires
            write_consistency_factor >= 1,
            update_concurrency matches Some(c) ==> c >= 1,
        ensures
            r@.valid(),
            r@.coherent(),
            r@.this_peer_id == this_peer_id,
            r@.shard_id == shard_id,
            r@.collection_id == collection_id@,
            r@.local == local,
            r@.remotes == remotes@,
            r@.disabled == Set::<PeerId>::empty(),
            r@.reported == Seq::<PeerId>::empty(),
            r@.write_consistency_factor == write_consistency_factor,
            r@.update_concurrency == match update_concurrency {
                Some(c) => Some(c as nat),
                None => None,
            },
            r@.states == Map::new(|p: PeerId| r@.is_member(p), |p: PeerId| ReplicaState::Dead),
    {
        let mut replica_state = ReplicaSetState::new();
        if local {
            replica_state.set_peer_state(this_peer_id, ReplicaState::Dead);
        }
        let mut i: usize = 0;
        while i < remotes.len()
            invariant
                i <= remotes.len(),
                forall|p: PeerId|
                    replica_state@.contains_key(p) <==> ((local && p == this_peer_id)
                        || remotes@.take(i as int).contains(p)),
                forall|p: PeerId|
                    replica_state@.contains_key(p) ==> replica_state@[p] == ReplicaState::Dead,
            decreases remotes.len() - i,
        {
            let ghost before = replica_state@;
            replica_state.set_peer_state(remotes[i], ReplicaState::Dead);
            proof {
                assert forall|p: PeerId|
                    replica_state@.contains_key(p) <==> ((local && p == this_peer_id)
                        || remotes@.take(i + 1).contains(p)) by {
                    lemma_prefix_contains(remotes@, i as int, p);
                }
            }
            i += 1;
        }
        proof {
            assert(remotes@.take(remotes.len() as int) =~= remotes@);
            assert(replica_state@ =~= Map::new(
                |p: PeerId| (local && p == this_peer_id) || remotes@.contains(p),
                |p: PeerId| ReplicaState::Dead,
            ));
        }
        ShardReplicaSet {
            this_peer_id,
            shard_id,
            collection_id,
            local,
            remotes,
            replica_state,
            locally_disabled: HashSet::new(),
            write_consistency_factor,
            update_concurrency,
            peer_failures: Vec::new(),
        }
    }

    /// The peer this process runs as.
    pub fn this_peer_id(&self) -> (r: PeerId)
        ensures
            r == self@.this_peer_id,
    {
        self.this_peer_id
    }

    /// The shard the replicas hold.
    pub fn shard_id(&self) -> (r: ShardId)
        ensures
            r == self@.shard_id,
    {
        self.shard_id
    }

    /// The collection the shard belongs to.
    pub fn collection_id(&self) -> (r: &String)
        ensures
            r@ == self@.collection_id,
    {
        &self.collection_id
    }

    /// Whether this peer hosts a replica itself.
    pub fn has_local(&self) -> (r: bool)
        ensures
            r == self@.local,
    {
        self.local
    }

    /// The peers reached through a remote handle, in handle order.
    pub fn remotes(&self) -> (r: &Vec<PeerId>)
        ensures
            r@ == self@.remotes,
    {
        &self.remotes
    }

    /// How many replicas must acknowledge a write.
    pub fn write_consistency_factor(&self) -> (r: u32)
        ensures
            r == self@.write_consistency_factor,
    {
        self.write_consistency_factor
    }

    /// How many replicas are written to at once, if bounded.
    pub fn update_concurrency(&self) -> (r: Option<usize>)
        ensures
            match r {
                Some(c) => self@.update_concurrency == Some(c as nat),
                None => self@.update_concurrency is None,
            },
    {
        self.update_concurrency
    }

    /// The state recorded for `peer_id`, if any.
    pub fn peer_state(&self, peer_id: PeerId) -> (r: Option<ReplicaState>)
        ensures
            r == self@.peer_state(peer_id),
    {
        self.replica_state.get_peer_state(peer_id)
    }

    /// Records the state that consensus gives `peer_id`.
    pub fn set_replica_state(&mut self, peer_id: PeerId, state: ReplicaState)
        ensures
            final(self)@ == (ReplicaSetModel {
                states: old(self)@.states.insert(peer_id, state),
                ..old(self)@
            }),
    {
        self.replica_state.set_peer_state(peer_id, state);
    }

    /// Whether this process has stopped routing to `peer_id`.
    pub fn is_locally_disabled(&self, peer_id: PeerId) -> (r: bool)
        ensures
            r == self@.disabled.contains(peer_id),
    {
        broadcast use vstd::std_specs::hash::group_hash_axioms;

        self.locally_disabled.contains(&peer_id)
    }

    /// Stops routing to `peer_id` and queues the peer for report to consensus.
    pub fn add_locally_disabled(&mut self, peer_id: PeerId)
        ensures
            final(self)@ == old(self)@.with_disabled(peer_id),
    {
        broadcast use vstd::std_specs::hash::group_hash_axioms;

        self.locally_disabled.insert(peer_id);
        self.peer_failures.push(peer_id);
    }

    /// Routes to `peer_id` again, as when consensus has confirmed its new state.
    pub fn remove_locally_disabled(&mut self, peer_id: PeerId)
        ensures
            final(self)@ == (ReplicaSetModel {
                disabled: old(self)@.disabled.remove(peer_id),
                ..old(self)@
            }),
    {
        broadcast use vstd::std_specs::hash::group_hash_axioms;

        self.locally_disabled.remove(&peer_id);
    }

    /// Hands out the peers whose failure is to be reported to consensus,
    /// oldest first, and empties the queue.
    pub fn take_peer_failures(&mut self) -> (r: Vec<PeerId>)
        ensures
            r@ == old(self)@.reported,
            final(self)@ == (ReplicaSetModel { reported: Seq::empty(), ..old(self)@ }),
    {
        let mut taken: Vec<PeerId> = Vec::new();
        std::mem::swap(&mut taken, &mut self.peer_failures);
        taken
    }

    /// Whether `peer_id` is recorded as `Active` and not locally disabled.
    pub fn peer_is_active(&self, peer_id: PeerId) -> (r: bool)
        ensures
            r == self@.is_active(peer_id),
    {
        match self.peer_state(peer_id) {
            Some(ReplicaState::Active) => !self.is_locally_disabled(peer_id),
            _ => false,
        }
    }

    /// Whether `peer_id` is to receive writes: its state is one of `Active`,
    /// `Initializing`, `Partial` and `Listener`, and it is not locally disabled.
    pub fn peer_is_active_or_pending(&self, peer_id: PeerId) -> (r: bool)
        ensures
            r == self@.is_active_or_pending(peer_id),
            r ==> !self@.disabled.contains(peer_id),
            r ==> self@.peer_state(peer_id) == Some(ReplicaState::Active) || self@.peer_state(
                peer_id,
            ) == Some(ReplicaState::Initializing) || self@.peer_state(peer_id) == Some(
                ReplicaState::Partial,
            ) || self@.peer_state(peer_id) == Some(ReplicaState::Listener),
    {
        let res = match self.peer_state(peer_id) {
            Some(state) => state.is_updatable(),
            None => false,
        };
        res && !self.is_locally_disabled(peer_id)
    }

    /// The highest peer that has a state, whatever the state.
    pub fn highest_replica_peer_id(&self) -> (r: Option<PeerId>)
        ensures
            r == max_of(self@.states.dom()),
    {
        let ids = self.replica_state.peer_ids();
        highest_of(&ids)
    }

    /// The highest peer that is active.
    pub fn highest_alive_replica_peer_id(&self) -> (r: Option<PeerId>)
        ensures
            r == max_of(self@.active_peers()),
    {
        let ids = self.replica_state.peer_ids();
        let mut alive: Vec<PeerId> = Vec::new();
        let mut i: usize = 0;
        while i < ids.len()
            invariant
                i <= ids.len(),
                forall|k: int| 0 <= k < alive.len() ==> self@.is_active(#[trigger] alive[k]),
                forall|j: int|
                    0 <= j < i && self@.is_active(#[trigger] ids[j]) ==> alive@.contains(ids[j]),
            decreases ids.len() - i,
        {
            let peer_id: PeerId = ids[i];
            if self.peer_is_active(peer_id) {
                let ghost before = alive@;
                alive.push(peer_id);
                proof {
                    assert(alive@[before.len() as int] == peer_id);
                    assert forall|j: int|
                        0 <= j < i + 1 && self@.is_active(#[trigger] ids[j]) implies alive@.contains(
                        ids[j],
                    ) by {
                        if j < i {
                            let k = choose|k: int| 0 <= k < before.len() && before[k] == ids[j];
                            assert(alive@[k] == ids[j]);
                        }
                    }
                }
            }
            i += 1;
        }
        proof {
            assert forall|p: PeerId| alive@.to_set().contains(p) <==> self@.active_peers().contains(
                p,
            ) by {
                if alive@.to_set().contains(p) {
                    assert(alive@.contains(p));
                }
                if self@.is_active(p) {
                    assert(self@.states.dom().contains(p));
                    assert(ids@.to_set().contains(p));
                    assert(ids@.contains(p));
                }
            }
            assert(alive@.to_set() =~= self@.active_peers());
        }
        highest_of(&alive)
    }

    /// The peer that leads a write of the given ordering: this peer for
    /// `Weak`, the highest active peer for `Medium`, the highest peer with a
    /// state for `Strong`. A leader, where there is one, is this peer or has
    /// a state.
    pub fn leader_peer_for_update(&self, ordering: WriteOrdering) -> (r: Option<PeerId>)
        ensures
            r == self@.leader(ordering),
            r matches Some(p) ==> p == self@.this_peer_id || self@.states.contains_key(p),
    {
        let leader = match ordering {
            WriteOrdering::Weak => Some(self.this_peer_id()),
            WriteOrdering::Medium => self.highest_alive_replica_peer_id(),
            WriteOrdering::Strong => self.highest_replica_peer_id(),
        };
        proof {
            lemma_leader_is_known(self@, ordering);
        }
        leader
    }

    /// Whether none of `peer_ids` is recorded as `Active`: what a writer
    /// waits for after it has reported failing replicas.
    pub fn peers_deactivated(&self, peer_ids: &Vec<PeerId>) -> (r: bool)
        ensures
            r == none_active(self@.states, peer_ids@),
    {
        self.replica_state.peers_deactivated(peer_ids)
    }
}

/// A leader is this peer or a peer that has a state; under `Medium` it is
/// active, so not locally disabled.
pub proof fn lemma_leader_is_known(set: ReplicaSetModel, ordering: WriteOrdering)
    ensures
        set.leader(ordering) matches Some(p) ==> p == set.this_peer_id || set.states.contains_key(
            p,
        ),
        ordering is Medium ==> (set.leader(ordering) matches Some(p) ==> set.is_active(p)),
{
    match ordering {
        WriteOrdering::Weak => {},
        WriteOrdering::Medium => {
            let s = set.active_peers();
            if exists|p: PeerId| crate::replica_state::is_max_of(s, p) {
                let p = choose|p: PeerId| crate::replica_state::is_max_of(s, p);
                assert(s.contains(p));
                assert(set.is_active(p));
            }
        },
        WriteOrdering::Strong => {
            let s = set.states.dom();
            if exists|p: PeerId| crate::replica_state::is_max_of(s, p) {
                let p = choose|p: PeerId| crate::replica_state::is_max_of(s, p);
                assert(s.contains(p));
            }
        },
    }
}

} // verus!
