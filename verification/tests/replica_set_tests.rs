use replica_set::{
    ReplicaSetState, ReplicaState, ServiceError, ShardReplicaSet, UpdateRoute, UpdateTarget,
    WriteOrdering,
};

fn replica_set_with(
    this_peer_id: u64,
    local: bool,
    remotes: Vec<u64>,
    states: &[(u64, ReplicaState)],
) -> ShardReplicaSet {
    let mut rs = ShardReplicaSet::new(
        this_peer_id,
        "test_collection".to_string(),
        1,
        local,
        remotes,
        2,
        None,
    );
    for (peer, state) in states {
        rs.set_replica_state(*peer, *state);
    }
    rs
}

#[test]
fn test_highest_replica_peer_id() {
    let mut rs = ShardReplicaSet::new(
        1,
        "test_collection".to_string(),
        1,
        false,
        vec![2, 3, 4, 5],
        2,
        None,
    );

    assert_eq!(rs.highest_replica_peer_id(), Some(5));
    // at build time the replicas are all dead, they need to be activated
    assert_eq!(rs.highest_alive_replica_peer_id(), None);

    rs.set_replica_state(1, ReplicaState::Active);
    rs.set_replica_state(3, ReplicaState::Active);
    rs.set_replica_state(4, ReplicaState::Active);
    rs.set_replica_state(5, ReplicaState::Partial);

    assert_eq!(rs.highest_replica_peer_id(), Some(5));
    assert_eq!(rs.highest_alive_replica_peer_id(), Some(4));
}

#[test]
fn highest_replica_among_dead_peers() {
    let mut rs = ShardReplicaSet::new(1, "c".to_string(), 7, true, vec![3, 4, 5], 1, None);
    assert_eq!(rs.peer_state(1), Some(ReplicaState::Dead));
    assert_eq!(rs.peer_state(3), Some(ReplicaState::Dead));
    assert_eq!(rs.peer_state(4), Some(ReplicaState::Dead));
    assert_eq!(rs.peer_state(5), Some(ReplicaState::Dead));
    assert_eq!(rs.peer_state(2), None);
    assert_eq!(rs.highest_replica_peer_id(), Some(5));
    assert_eq!(rs.highest_alive_replica_peer_id(), None);

    rs.set_replica_state(1, ReplicaState::Active);
    rs.set_replica_state(3, ReplicaState::Active);
    rs.set_replica_state(4, ReplicaState::Active);
    rs.set_replica_state(5, ReplicaState::Partial);
    assert_eq!(rs.highest_replica_peer_id(), Some(5));
    assert_eq!(rs.highest_alive_replica_peer_id(), Some(4));
}

#[test]
fn new_replica_set_keeps_what_it_was_given() {
    let rs = ShardReplicaSet::new(9, "points".to_string(), 3, true, vec![2, 4], 5, Some(2));
    assert_eq!(rs.this_peer_id(), 9);
    assert_eq!(rs.collection_id().as_str(), "points");
    assert_eq!(rs.shard_id(), 3);
    assert!(rs.has_local());
    assert_eq!(rs.remotes(), &vec![2, 4]);
    assert_eq!(rs.write_consistency_factor(), 5);
    assert_eq!(rs.update_concurrency(), Some(2));
    assert!(!rs.is_locally_disabled(2));
    assert!(!rs.is_locally_disabled(9));
}

#[test]
fn empty_replica_set_has_no_highest_peer() {
    let rs = ShardReplicaSet::new(1, "c".to_string(), 1, false, vec![], 1, None);
    assert_eq!(rs.highest_replica_peer_id(), None);
    assert_eq!(rs.highest_alive_replica_peer_id(), None);
    assert_eq!(rs.leader_peer_for_update(WriteOrdering::Strong), None);
    assert_eq!(rs.leader_peer_for_update(WriteOrdering::Medium), None);
    assert_eq!(rs.leader_peer_for_update(WriteOrdering::Weak), Some(1));
}

#[test]
fn weak_ordering_leads_locally() {
    let rs = replica_set_with(
        1,
        true,
        vec![4, 5],
        &[(1, ReplicaState::Active), (4, ReplicaState::Active), (5, ReplicaState::Active)],
    );
    assert_eq!(rs.leader_peer_for_update(WriteOrdering::Weak), Some(1));
    assert_eq!(
        rs.update_with_consistency(WriteOrdering::Weak),
        Ok(UpdateRoute::Local { ordered: false })
    );
}

#[test]
fn medium_ordering_forwards_to_highest_active_peer() {
    let rs = replica_set_with(
        1,
        true,
        vec![4, 5],
        &[(1, ReplicaState::Active), (4, ReplicaState::Active), (5, ReplicaState::Active)],
    );
    assert_eq!(rs.leader_peer_for_update(WriteOrdering::Medium), Some(5));
    assert_eq!(
        rs.update_with_consistency(WriteOrdering::Medium),
        Ok(UpdateRoute::Forward { leader: 5, remote: 1 })
    );
    assert_eq!(rs.forward_update(5), Ok(1));
    assert_eq!(rs.forward_update(4), Ok(0));
}

#[test]
fn medium_ordering_passes_over_peers_that_are_not_active() {
    let mut rs = replica_set_with(
        1,
        true,
        vec![4, 5, 6],
        &[
            (1, ReplicaState::Active),
            (4, ReplicaState::Active),
            (5, ReplicaState::Active),
            (6, ReplicaState::Partial),
        ],
    );
    assert_eq!(rs.leader_peer_for_update(WriteOrdering::Medium), Some(5));
    rs.add_locally_disabled(5);
    assert_eq!(rs.leader_peer_for_update(WriteOrdering::Medium), Some(4));
    rs.add_locally_disabled(4);
    assert_eq!(rs.leader_peer_for_update(WriteOrdering::Medium), Some(1));
    assert_eq!(
        rs.update_with_consistency(WriteOrdering::Medium),
        Ok(UpdateRoute::Local { ordered: true })
    );
    rs.add_locally_disabled(1);
    assert_eq!(rs.leader_peer_for_update(WriteOrdering::Medium), None);
    assert_eq!(
        rs.update_with_consistency(WriteOrdering::Medium),
        Err(ServiceError::NoLeader { ordering: WriteOrdering::Medium })
    );
    // the strong leader does not depend on who is alive
    assert_eq!(rs.leader_peer_for_update(WriteOrdering::Strong), Some(6));
}

#[test]
fn strong_ordering_counts_dead_peers() {
    let rs = replica_set_with(
        7,
        true,
        vec![2, 3],
        &[(7, ReplicaState::Dead), (2, ReplicaState::Active), (3, ReplicaState::Dead)],
    );
    assert_eq!(rs.leader_peer_for_update(WriteOrdering::Strong), Some(7));
    assert_eq!(
        rs.update_with_consistency(WriteOrdering::Strong),
        Ok(UpdateRoute::Local { ordered: true })
    );
    assert_eq!(rs.leader_peer_for_update(WriteOrdering::Medium), Some(2));
}

#[test]
fn strong_ordering_forwards_to_dead_leader() {
    let rs = replica_set_with(
        1,
        true,
        vec![2, 9],
        &[(1, ReplicaState::Active), (2, ReplicaState::Active), (9, ReplicaState::Dead)],
    );
    assert_eq!(
        rs.update_with_consistency(WriteOrdering::Strong),
        Ok(UpdateRoute::Forward { leader: 9, remote: 1 })
    );
}

#[test]
fn leader_without_remote_handle_was_removed() {
    let mut rs = replica_set_with(1, true, vec![2], &[(1, ReplicaState::Active)]);
    rs.set_replica_state(8, ReplicaState::Active);
    assert_eq!(rs.leader_peer_for_update(WriteOrdering::Medium), Some(8));
    assert_eq!(
        rs.update_with_consistency(WriteOrdering::Medium),
        Err(ServiceError::LeaderRemoved { leader: 8 })
    );
    assert_eq!(rs.forward_update(8), Err(ServiceError::LeaderRemoved { leader: 8 }));
    assert!(!rs.is_locally_disabled(8));
    assert_eq!(
        ServiceError::LeaderRemoved { leader: 8 }.description(),
        "removed from replica set"
    );
}

#[test]
fn no_leader_is_a_service_error() {
    let rs = replica_set_with(1, true, vec![2], &[]);
    assert_eq!(
        rs.update_with_consistency(WriteOrdering::Medium),
        Err(ServiceError::NoLeader { ordering: WriteOrdering::Medium })
    );
    assert_eq!(
        ServiceError::NoLeader { ordering: WriteOrdering::Medium }.description(),
        "no leader"
    );
}

#[test]
fn leader_is_this_peer_or_has_a_state() {
    let rs = replica_set_with(
        3,
        false,
        vec![1, 2, 8],
        &[(1, ReplicaState::Active), (2, ReplicaState::Listener), (8, ReplicaState::Dead)],
    );
    for ordering in [WriteOrdering::Weak, WriteOrdering::Medium, WriteOrdering::Strong] {
        if let Some(leader) = rs.leader_peer_for_update(ordering) {
            assert!(leader == rs.this_peer_id() || rs.peer_state(leader).is_some());
        }
    }
    assert_eq!(rs.leader_peer_for_update(WriteOrdering::Weak), Some(3));
    assert_eq!(rs.leader_peer_for_update(WriteOrdering::Medium), Some(1));
    assert_eq!(rs.leader_peer_for_update(WriteOrdering::Strong), Some(8));
}

#[test]
fn active_or_pending_by_state() {
    let rs = replica_set_with(
        1,
        true,
        vec![2, 3, 4, 5, 6],
        &[
            (1, ReplicaState::Active),
            (2, ReplicaState::Initializing),
            (3, ReplicaState::Partial),
            (4, ReplicaState::Listener),
            (5, ReplicaState::Dead),
            (6, ReplicaState::PartialSnapshot),
        ],
    );
    assert!(rs.peer_is_active_or_pending(1));
    assert!(rs.peer_is_active_or_pending(2));
    assert!(rs.peer_is_active_or_pending(3));
    assert!(rs.peer_is_active_or_pending(4));
    assert!(!rs.peer_is_active_or_pending(5));
    assert!(!rs.peer_is_active_or_pending(6));
    assert!(!rs.peer_is_active_or_pending(77));

    assert!(rs.peer_is_active(1));
    assert!(!rs.peer_is_active(2));
    assert!(!rs.peer_is_active(3));
    assert!(!rs.peer_is_active(4));
    assert!(!rs.peer_is_active(5));
    assert!(!rs.peer_is_active(6));
    assert!(!rs.peer_is_active(77));
}

#[test]
fn locally_disabled_peer_is_neither_active_nor_pending() {
    let mut rs = replica_set_with(
        1,
        true,
        vec![2],
        &[(1, ReplicaState::Active), (2, ReplicaState::Partial)],
    );
    rs.add_locally_disabled(1);
    rs.add_locally_disabled(2);
    assert!(rs.is_locally_disabled(1));
    assert!(!rs.peer_is_active(1));
    assert!(!rs.peer_is_active_or_pending(1));
    assert!(!rs.peer_is_active_or_pending(2));
    assert_eq!(rs.take_peer_failures(), vec![1, 2]);
    assert_eq!(rs.take_peer_failures(), Vec::<u64>::new());

    rs.remove_locally_disabled(1);
    assert!(!rs.is_locally_disabled(1));
    assert!(rs.peer_is_active(1));
    assert!(rs.peer_is_active_or_pending(1));
    assert!(rs.is_locally_disabled(2));
}

#[test]
fn update_local_by_state() {
    let mut rs = replica_set_with(1, true, vec![2], &[(2, ReplicaState::Active)]);
    let expected = [
        (ReplicaState::Active, Some(true), Some(false)),
        (ReplicaState::Partial, Some(true), Some(false)),
        (ReplicaState::Initializing, Some(true), Some(false)),
        (ReplicaState::Listener, Some(false), Some(false)),
        (ReplicaState::PartialSnapshot, None, None),
        (ReplicaState::Dead, None, None),
    ];
    for (state, waiting, not_waiting) in expected {
        rs.set_replica_state(1, state);
        assert_eq!(rs.update_local(true), waiting);
        assert_eq!(rs.update_local(false), not_waiting);
    }
}

#[test]
fn update_local_without_local_replica_applies_nothing() {
    let mut rs = replica_set_with(1, false, vec![2], &[(2, ReplicaState::Active)]);
    assert_eq!(rs.update_local(true), None);
    rs.set_replica_state(1, ReplicaState::Active);
    assert_eq!(rs.update_local(true), None);
}

#[test]
fn update_local_does_not_ask_the_local_overlay() {
    let mut rs = replica_set_with(1, true, vec![], &[(1, ReplicaState::Active)]);
    rs.add_locally_disabled(1);
    assert_eq!(rs.update_local(true), Some(true));
}

#[test]
fn update_local_twice_applies_an_idempotent_operation_once() {
    // a mock storage engine: the operation sets a key, so applying it twice
    // leaves what applying it once leaves
    let rs = replica_set_with(1, true, vec![2], &[(1, ReplicaState::Active)]);
    let mut engine: Vec<(u64, u64)> = Vec::new();
    let mut apply = |engine: &mut Vec<(u64, u64)>| {
        if let Some(_wait) = rs.update_local(true) {
            if let Some(entry) = engine.iter_mut().find(|(k, _)| *k == 10) {
                entry.1 = 42;
            } else {
                engine.push((10, 42));
            }
        }
    };
    apply(&mut engine);
    let once = engine.clone();
    apply(&mut engine);
    assert_eq!(engine, once);
    assert_eq!(engine, vec![(10, 42)]);
    // deciding a local update changes nothing in the replica set
    assert!(!rs.is_locally_disabled(1));
    assert_eq!(rs.update_local(true), Some(true));
}

#[test]
fn update_targets_local_first_then_remotes_in_order() {
    let rs = replica_set_with(
        3,
        true,
        vec![9, 2, 7, 5],
        &[
            (3, ReplicaState::Active),
            (9, ReplicaState::Partial),
            (2, ReplicaState::Dead),
            (7, ReplicaState::Initializing),
            (5, ReplicaState::PartialSnapshot),
        ],
    );
    assert_eq!(
        rs.update(true),
        Ok(vec![
            UpdateTarget { peer_id: 3, wait: true, local: true },
            UpdateTarget { peer_id: 9, wait: true, local: false },
            UpdateTarget { peer_id: 7, wait: true, local: false },
        ])
    );
    assert_eq!(
        rs.update(false),
        Ok(vec![
            UpdateTarget { peer_id: 3, wait: false, local: true },
            UpdateTarget { peer_id: 9, wait: false, local: false },
            UpdateTarget { peer_id: 7, wait: false, local: false },
        ])
    );
}

#[test]
fn listener_is_never_waited_for() {
    let rs = replica_set_with(
        1,
        true,
        vec![2, 3],
        &[
            (1, ReplicaState::Listener),
            (2, ReplicaState::Listener),
            (3, ReplicaState::Active),
        ],
    );
    assert_eq!(
        rs.update(true),
        Ok(vec![
            UpdateTarget { peer_id: 1, wait: false, local: true },
            UpdateTarget { peer_id: 2, wait: false, local: false },
            UpdateTarget { peer_id: 3, wait: true, local: false },
        ])
    );
}

#[test]
fn update_without_local_replica_targets_remotes_only() {
    let rs = replica_set_with(
        1,
        false,
        vec![2, 3],
        &[(1, ReplicaState::Active), (2, ReplicaState::Active), (3, ReplicaState::Active)],
    );
    assert_eq!(
        rs.update(true),
        Ok(vec![
            UpdateTarget { peer_id: 2, wait: true, local: false },
            UpdateTarget { peer_id: 3, wait: true, local: false },
        ])
    );
}

#[test]
fn update_passes_over_locally_disabled_peers() {
    let mut rs = replica_set_with(
        1,
        true,
        vec![2, 3],
        &[(1, ReplicaState::Active), (2, ReplicaState::Active), (3, ReplicaState::Active)],
    );
    rs.add_locally_disabled(2);
    rs.add_locally_disabled(1);
    assert_eq!(rs.update(true), Ok(vec![UpdateTarget { peer_id: 3, wait: true, local: false }]));
}

#[test]
fn empty_target_set_is_no_active_replica() {
    let rs = replica_set_with(1, true, vec![2, 3], &[]);
    assert_eq!(rs.update(true), Err(ServiceError::NoActiveReplica));
    assert_eq!(ServiceError::NoActiveReplica.description(), "no active replica");

    let rs = replica_set_with(
        1,
        true,
        vec![2],
        &[(1, ReplicaState::PartialSnapshot), (2, ReplicaState::Dead)],
    );
    assert_eq!(rs.update(false), Err(ServiceError::NoActiveReplica));

    let rs = ShardReplicaSet::new(1, "c".to_string(), 1, false, vec![], 1, None);
    assert_eq!(rs.update(true), Err(ServiceError::NoActiveReplica));
}

#[test]
fn peers_deactivated_when_none_is_active() {
    let mut rs = replica_set_with(
        1,
        true,
        vec![2, 3],
        &[(1, ReplicaState::Active), (2, ReplicaState::Active), (3, ReplicaState::Partial)],
    );
    assert!(rs.peers_deactivated(&vec![]));
    assert!(rs.peers_deactivated(&vec![3]));
    // a peer without a state counts as deactivated
    assert!(rs.peers_deactivated(&vec![3, 99]));
    assert!(!rs.peers_deactivated(&vec![3, 2]));
    assert!(!rs.peers_deactivated(&vec![1]));
    rs.set_replica_state(2, ReplicaState::Dead);
    assert!(rs.peers_deactivated(&vec![3, 2]));
    // the local overlay does not count: only the state that consensus gave
    rs.add_locally_disabled(1);
    assert!(!rs.peers_deactivated(&vec![1]));
}

#[test]
fn state_table_get_set_keys() {
    let mut table = ReplicaSetState::new();
    assert_eq!(table.get_peer_state(1), None);
    assert!(table.peer_ids().is_empty());
    table.set_peer_state(1, ReplicaState::Dead);
    table.set_peer_state(2, ReplicaState::Active);
    table.set_peer_state(1, ReplicaState::Listener);
    assert_eq!(table.get_peer_state(1), Some(ReplicaState::Listener));
    assert_eq!(table.get_peer_state(2), Some(ReplicaState::Active));
    let mut ids = table.peer_ids();
    ids.sort();
    assert_eq!(ids, vec![1, 2]);
    assert!(!table.peers_deactivated(&vec![1, 2]));
    table.set_peer_state(2, ReplicaState::Dead);
    assert_eq!(table.get_peer_state(2), Some(ReplicaState::Dead));
    assert!(table.peers_deactivated(&vec![1, 2]));
}

#[test]
fn updatable_states() {
    assert!(ReplicaState::Active.is_updatable());
    assert!(ReplicaState::Initializing.is_updatable());
    assert!(ReplicaState::Partial.is_updatable());
    assert!(ReplicaState::Listener.is_updatable());
    assert!(!ReplicaState::Dead.is_updatable());
    assert!(!ReplicaState::PartialSnapshot.is_updatable());
}
