//! Replica states and the table that maps each peer of a replica set to its state.

use std::collections::HashMap;
use vstd::prelude::*;

verus! {

/// Identifier of a peer of the cluster; peers are ordered by it.
pub type PeerId = u64;

/// State of one replica of a shard.
#[derive(Clone, Copy, Debug, PartialEq, Eq, Structural)]
pub enum ReplicaState {
    /// Fully caught up: serves reads and writes.
    Active,
    /// Known bad: takes part in nothing.
    Dead,
    /// Accepts writes, still behind on older data.
    Partial,
    /// Newly added: accepts writes, not yet confirmed.
    Initializing,
    /// Accepts writes without ever making the caller wait.
    Listener,
    /// Receives a snapshot: not writable.
    PartialSnapshot,
}

impl ReplicaState {
    /// A replica in this state is sent every write.
    pub open spec fn accepts_updates(self) -> bool {
        self is Active || self is Partial || self is Initializing || self is Listener
    }

    /// Whether a replica in this state is sent every write.
    pub fn is_updatable(self) -> (r: bool)
        ensures
            r == self.accepts_updates(),
    {
        match self {
            ReplicaState::Active => true,
            ReplicaState::Partial => true,
            ReplicaState::Initializing => true,
            ReplicaState::Dead => false,
            ReplicaState::Listener => true,
            ReplicaState::PartialSnapshot => false,
        }
    }
}

/// The state that `states` records for `peer`, if any.
pub open spec fn state_of(states: Map<PeerId, ReplicaState>, peer: PeerId) -> Option<
    ReplicaState,
> {
    if states.contains_key(peer) {
        Some(states[peer])
    } else {
        None
    }
}

/// `p` is the greatest member of `s`.
pub open spec fn is_max_of(s: Set<PeerId>, p: PeerId) -> bool {
    s.contains(p) && forall|q: PeerId| s.contains(q) ==> q <= p
}

/// The greatest member of `s`, or `None` where `s` is empty.
pub open spec fn max_of(s: Set<PeerId>) -> Option<PeerId> {
    if exists|p: PeerId| is_max_of(s, p) {
        Some(choose|p: PeerId| is_max_of(s, p))
    } else {
        None
    }
}

/// A set has at most one greatest member, so `max_of` names it.
pub proof fn lemma_max_of_unique(s: Set<PeerId>, p: PeerId)
    requires
        is_max_of(s, p),
    ensures
        max_of(s) == Some(p),
{
    let q = choose|q: PeerId| is_max_of(s, q);
    assert(is_max_of(s, q));
    assert(q <= p && p <= q);
}

/// A set without members has no greatest member.
pub proof fn lemma_max_of_empty(s: Set<PeerId>)
    requires
        forall|q: PeerId| !s.contains(q),
    ensures
        max_of(s) is None,
{
}

/// None of `peers` is recorded as `Active` in `states`; a peer without a
/// record counts as not active.
pub open spec fn none_active(states: Map<PeerId, ReplicaState>, peers: Seq<PeerId>) -> bool {
    forall|i: int| 0 <= i < peers.len() ==> state_of(states, #[trigger] peers[i]) != Some(ReplicaState::Active)
}

/// The greatest of the given peers.
pub fn highest_of(peers: &Vec<PeerId>) -> (r: Option<PeerId>)
    ensures
        r == max_of(peers@.to_set()),
{
    let mut best: Option<PeerId> = None;
    let mut i: usize = 0;
    while i < peers.len()
        invariant
            i <= peers.len(),
            best is None <==> i == 0,
            best matches Some(b) ==> exists|j: int| 0 <= j < i && peers[j] == b,
            forall|j: int| 0 <= j < i ==> best is Some && #[trigger] peers[j] <= best->0,
        decreases peers.len() - i,
    {
        let p: PeerId = peers[i];
        best =
        match best {
            Some(b) => if b < p {
                Some(p)
            } else {
                Some(b)
            },
            None => Some(p),
        };
        i += 1;
    }
    proof {
        let s = peers@.to_set();
        match best {
            Some(b) => {
                assert(peers@.contains(b));
                assert forall|q: PeerId| s.contains(q) implies q <= b by {
                    assert(peers@.contains(q));
                }
                lemma_max_of_unique(s, b);
            },
            None => {
                assert forall|q: PeerId| !s.contains(q) by {
                    if s.contains(q) {
                        assert(peers@.contains(q));
                    }
                }
                lemma_max_of_empty(s);
            },
        }
    }
    best
}

/// Table from peer to replica state. Its view is the map it stands for.
pub struct ReplicaSetState {
    peers: HashMap<PeerId, ReplicaState>,
}

impl View for ReplicaSetState {
    type V = Map<PeerId, ReplicaState>;

    closed spec fn view(&self) -> Map<PeerId, ReplicaState> {
        self.peers@
    }
}

impl ReplicaSetState {
    /// The table without any peer.
    pub fn new() -> (r: Self)
        ensures
            r@ == Map::<PeerId, ReplicaState>::empty(),
    {
        ReplicaSetState { peers: HashMap::new() }
    }

    /// The state recorded for `peer_id`, if any.
    pub fn get_peer_state(&self, peer_id: PeerId) -> (r: Option<ReplicaState>)
        ensures
            r == state_of(self@, peer_id),
    {
        broadcast use vstd::std_specs::hash::group_hash_axioms;

        match self.peers.get(&peer_id) {
            Some(state) => Some(*state),
            None => None,
        }
    }

    /// Records `state` for `peer_id`, whether or not the peer had a record.
    pub fn set_peer_state(&mut self, peer_id: PeerId, state: ReplicaState)
        ensures
            final(self)@ == old(self)@.insert(peer_id, state),
    {
        broadcast use vstd::std_specs::hash::group_hash_axioms;

        self.peers.insert(peer_id, state);
    }

    /// The peers that have a record, each once, in no particular order.
    pub fn peer_ids(&self) -> (r: Vec<PeerId>)
        ensures
            r@.to_set() == self@.dom(),
            r@.no_duplicates(),
    {
        broadcast use vstd::std_specs::hash::group_hash_axioms;

        let mut ids: Vec<PeerId> = Vec::new();
        for k in it: self.peers.keys()
            invariant
                it.seq().unref().to_set() == self.peers@.dom(),
                it.seq().unref().no_duplicates(),
                ids@ == it.seq().unref().take(it.index()),
                it.index() == it.seq().len() ==> ids@ == it.seq().unref(),
        {
            ids.push(*k);
            proof {
                let keys = it.seq().unref();
                assert(keys.take(it.index() + 1) =~= keys.take(it.index()).push(keys[it.index()]));
                assert(keys.take(keys.len() as int) =~= keys);
            }
        }
        ids
    }

    /// Whether none of `peer_ids` is recorded as `Active`. This is the
    /// condition a writer waits for after it has reported failing replicas.
    pub fn peers_deactivated(&self, peer_ids: &Vec<PeerId>) -> (r: bool)
        ensures
            r == none_active(self@, peer_ids@),
    {
        let mut i: usize = 0;
        while i < peer_ids.len()
            invariant
                i <= peer_ids.len(),
                forall|j: int| 0 <= j < i ==> state_of(self@, #[trigger] peer_ids[j]) != Some(ReplicaState::Active),
            decreases peer_ids.len() - i,
        {
            match self.get_peer_state(peer_ids[i]) {
                Some(ReplicaState::Active) => {
                    return false;
                },
                _ => {},
            }
            i += 1;
        }
        true
    }
}

} // verus!
