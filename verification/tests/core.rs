//! Tests of the sequencer, the store model, the lease keeper and the
//! operation executor.

use storctl::executor::{
    create_pool, destroy_pool, destroy_replica, replay_pool_op, share_replica, unshare_replica,
    SvcError,
};
use storctl::lease::LeaseKeeper;
use storctl::msg::{
    CreatePool, CreateReplica, DestroyPool, DestroyReplica, Protocol, ReplicaOwners,
    ReplicaShareProtocol, ShareReplica, UnshareReplica,
};
use storctl::pool::{PoolOperation, PoolSpec};
use storctl::registry::ResourceSpecs;
use storctl::sequencer::{OperationMode, OperationSequence, SequenceState};
use storctl::specs::SpecStatus;
use storctl::store::{KeyValueStore, LeasePair, StoreError, StoredValue};
use storctl::{IntoOption, IntoVec};

fn uuid(n: u8) -> String {
    format!("00000000-0000-0000-0000-0000000000{:02x}", n)
}

fn create_pool_request() -> CreatePool {
    CreatePool {
        node: "n0".to_string(),
        id: "p0".to_string(),
        disks: vec!["aio:///dev/null".to_string()],
        labels: None,
    }
}

fn create_replica_request(size: u64, share: Protocol) -> CreateReplica {
    CreateReplica {
        node: "n0".to_string(),
        name: None,
        uuid: uuid(1),
        pool: "p0".to_string(),
        size,
        thin: true,
        share,
        managed: false,
        owners: ReplicaOwners::new_disown_all(),
    }
}

#[test]
fn sequencer_exclusion() {
    let mut seq = OperationSequence::new("r0".to_string());
    assert!(seq.try_acquire(OperationMode::Exclusive));
    // a held writer excludes writers and reconcilers alike
    assert!(!seq.try_acquire(OperationMode::Exclusive));
    assert!(!seq.try_acquire(OperationMode::ReconcileStart));
    assert!(!seq.try_acquire(OperationMode::ReconcileStep));
    assert!(!seq.try_acquire(OperationMode::Shared));
    seq.release(OperationMode::Exclusive);
    assert_eq!(seq.state, SequenceState::Idle);

    assert!(seq.try_acquire(OperationMode::ReconcileStart));
    assert!(!seq.try_acquire(OperationMode::Exclusive));
    assert!(!seq.try_acquire(OperationMode::ReconcileStart));
    // a reconcile sub-step is re-entrant under the pass that holds it
    assert!(seq.try_acquire(OperationMode::ReconcileStep));
    assert!(!seq.try_acquire(OperationMode::ReconcileStep));
    seq.release(OperationMode::ReconcileStep);
    assert!(seq.try_acquire(OperationMode::ReconcileStep));
    seq.release(OperationMode::ReconcileStep);
    seq.release(OperationMode::ReconcileStart);
    assert_eq!(seq.state, SequenceState::Idle);
}

#[test]
fn sequencer_shared_counts() {
    let mut seq = OperationSequence::new("r0".to_string());
    assert!(seq.try_acquire(OperationMode::Shared));
    assert!(seq.try_acquire(OperationMode::Shared));
    assert_eq!(seq.state, SequenceState::Shared { count: 2 });
    assert!(!seq.try_acquire(OperationMode::Exclusive));
    seq.release(OperationMode::Shared);
    assert_eq!(seq.state, SequenceState::Shared { count: 1 });
    seq.release(OperationMode::Shared);
    assert_eq!(seq.state, SequenceState::Idle);
    assert!(seq.try_acquire(OperationMode::Exclusive));
}

#[test]
fn sequencer_random_interleavings() {
    // a linear congruential walk over acquire and release requests: at no
    // point are a writer and a reconcile pass granted together
    let mut seq = OperationSequence::new("r0".to_string());
    let mut holders: Vec<OperationMode> = Vec::new();
    let mut x: u64 = 0x2545_f491_4f6c_dd1d;
    for _ in 0..10_000 {
        x = x.wrapping_mul(6364136223846793005).wrapping_add(1442695040888963407);
        let pick = (x >> 33) % 5;
        match pick {
            0 => {
                if seq.try_acquire(OperationMode::Exclusive) {
                    holders.push(OperationMode::Exclusive);
                }
            }
            1 => {
                if seq.try_acquire(OperationMode::ReconcileStart) {
                    holders.push(OperationMode::ReconcileStart);
                }
            }
            2 => {
                if seq.try_acquire(OperationMode::ReconcileStep) {
                    holders.push(OperationMode::ReconcileStep);
                }
            }
            3 => {
                if seq.try_acquire(OperationMode::Shared) {
                    holders.push(OperationMode::Shared);
                }
            }
            _ => {
                // release in reverse acquisition order
                if let Some(mode) = holders.pop() {
                    seq.release(mode);
                }
            }
        }
        let writers = holders
            .iter()
            .filter(|m| matches!(m, OperationMode::Exclusive | OperationMode::ReconcileStart))
            .count();
        assert!(writers <= 1, "a writer and a reconcile pass were granted together");
        if holders.iter().any(|m| matches!(m, OperationMode::Exclusive)) {
            assert_eq!(holders.len(), 1);
        }
    }
}

#[test]
fn store_lease_fencing() {
    // single-writer fencing: one lock key, two lease ids; only the holder
    // commits, and a revoked writer commits nothing further
    let mut store = KeyValueStore::new();
    assert!(store.grant_lock(&"control-plane/lock/core".to_string(), 1, 0, 30));
    assert!(!store.grant_lock(&"control-plane/lock/core".to_string(), 2, 10, 30));

    let holder = LeasePair { lease_id: 1, lock_key: "control-plane/lock/core".to_string() };
    let intruder = LeasePair { lease_id: 2, lock_key: "control-plane/lock/core".to_string() };

    let spec = PoolSpec::from_request(&create_pool_request());
    let key = spec.key().key();
    assert!(store.put_kv(Some(&holder), &key, StoredValue::Pool(spec)).is_ok());
    let spec2 = PoolSpec::from_request(&create_pool_request());
    assert_eq!(
        store.put_kv(Some(&intruder), &key, StoredValue::Pool(spec2)),
        Err(StoreError::FailedLock)
    );

    // the lock changes hands: the old holder is fenced out
    store.release_lock(&"control-plane/lock/core".to_string(), 1);
    assert!(store.grant_lock(&"control-plane/lock/core".to_string(), 2, 10, 30));
    let spec3 = PoolSpec::from_request(&create_pool_request());
    assert_eq!(
        store.put_kv(Some(&holder), &key, StoredValue::Pool(spec3)),
        Err(StoreError::FailedLock)
    );
    assert!(store.delete_kv(Some(&intruder), &key).is_ok());
}

#[test]
fn lease_keeper_lifecycle() {
    let mut store = KeyValueStore::new();
    let keeper = LeaseKeeper::start(&mut store, "control-plane/lock/core".to_string(), 7, 30, 0);
    let mut keeper = keeper.expect("the lock key was free");
    // a second keeper cannot take the same lock
    assert!(LeaseKeeper::start(&mut store, "control-plane/lock/core".to_string(), 8, 30, 0)
        .is_none());

    assert!(!keeper.refresh_due(5));
    assert!(keeper.refresh_due(10));
    keeper.on_refreshed(&mut store, 10);
    assert!(!keeper.refresh_due(15));

    keeper.check_expiry(39);
    assert!(keeper.lease_lock().is_ok());
    keeper.check_expiry(41);
    assert!(matches!(keeper.lease_lock(), Err(StoreError::NotReady)));

    keeper.revoke(&mut store);
    assert!(LeaseKeeper::start(&mut store, "control-plane/lock/core".to_string(), 8, 30, 50)
        .is_some());
}

#[test]
fn expired_lease_can_be_taken_over() {
    // a crashed writer's lease runs out: a new keeper takes the lock key
    // over, and the old holder's conditional writes fail from then on
    let mut store = KeyValueStore::new();
    let crashed = LeaseKeeper::start(&mut store, "control-plane/lock/core".to_string(), 1, 30, 0)
        .expect("the lock key was free");
    // within the TTL nobody else gets in
    assert!(LeaseKeeper::start(&mut store, "control-plane/lock/core".to_string(), 2, 30, 20)
        .is_none());
    // past the TTL without a refresh the key is taken over
    let successor =
        LeaseKeeper::start(&mut store, "control-plane/lock/core".to_string(), 2, 30, 31)
            .expect("the expired lease is taken over");
    let stale = crashed.lease_lock().expect("the crashed keeper never noticed");
    let spec = PoolSpec::from_request(&create_pool_request());
    let key = spec.key().key();
    assert_eq!(
        store.put_kv(Some(&stale), &key, StoredValue::Pool(spec)),
        Err(StoreError::FailedLock)
    );
    let fresh = successor.lease_lock().expect("the successor holds the lease");
    let spec2 = PoolSpec::from_request(&create_pool_request());
    assert!(store.put_kv(Some(&fresh), &key, StoredValue::Pool(spec2)).is_ok());
}

#[test]
fn create_pool_scenario() {
    // submit a create: the spec is persisted, the data plane acts, the
    // spec ends created online under its key
    let mut registry = ResourceSpecs::new();
    let mut store = KeyValueStore::new();
    let request = create_pool_request();
    assert!(create_pool(&mut registry, &mut store, None, &request, true).is_ok());

    assert_eq!(registry.pools.len(), 1);
    let spec = &registry.pools[0];
    assert_eq!(spec.id, "p0");
    assert_eq!(spec.node, "n0");
    assert_eq!(spec.status, SpecStatus::Created(storctl::msg::PoolStatus::Online));
    assert!(spec.operation.is_none());
    match store.get_kv(&"spec/pool/p0".to_string()) {
        Ok(StoredValue::Pool(stored)) => {
            assert_eq!(stored.id, "p0");
            assert!(stored.operation.is_none());
        }
        other => panic!("the pool record is missing or mistagged: {:?}", other),
    }

    // a repeated identical create succeeds without changing anything
    let again = create_pool_request();
    assert!(create_pool(&mut registry, &mut store, None, &again, true).is_ok());
    assert_eq!(registry.pools.len(), 1);

    // a mismatching create under the same id is refused
    let mut different = create_pool_request();
    different.disks = vec!["aio:///dev/sda".to_string()];
    assert_eq!(
        create_pool(&mut registry, &mut store, None, &different, true),
        Err(SvcError::AlreadyExists)
    );
}

#[test]
fn create_pool_data_plane_failure_rolls_back() {
    let mut registry = ResourceSpecs::new();
    let mut store = KeyValueStore::new();
    let request = create_pool_request();
    assert_eq!(
        create_pool(&mut registry, &mut store, None, &request, false),
        Err(SvcError::Internal)
    );
    assert!(registry.pools.is_empty());
    assert!(matches!(
        store.get_kv(&"spec/pool/p0".to_string()),
        Err(StoreError::MissingEntry)
    ));
}

#[test]
fn create_pool_without_lease_is_not_ready() {
    let mut registry = ResourceSpecs::new();
    let mut store = KeyValueStore::new();
    // the lease was taken by somebody else entirely
    assert!(store.grant_lock(&"lock".to_string(), 99, 0, 30));
    let stale = LeasePair { lease_id: 1, lock_key: "lock".to_string() };
    let request = create_pool_request();
    assert_eq!(
        create_pool(&mut registry, &mut store, Some(&stale), &request, true),
        Err(SvcError::NotReady)
    );
    assert!(registry.pools.is_empty());
}

#[test]
fn destroy_pool_scenario() {
    let mut registry = ResourceSpecs::new();
    let mut store = KeyValueStore::new();
    let request = create_pool_request();
    assert!(create_pool(&mut registry, &mut store, None, &request, true).is_ok());

    let destroy = DestroyPool { node: "n0".to_string(), id: "p0".to_string() };
    assert!(destroy_pool(&mut registry, &mut store, None, &destroy, true).is_ok());
    assert!(registry.pools.is_empty());
    assert!(matches!(
        store.get_kv(&"spec/pool/p0".to_string()),
        Err(StoreError::MissingEntry)
    ));

    // destroying a pool that is gone already succeeds
    assert!(destroy_pool(&mut registry, &mut store, None, &destroy, true).is_ok());
}

#[test]
fn create_replica() {
    let mut registry = ResourceSpecs::new();
    let mut store = KeyValueStore::new();
    let replica = create_replica_request(5 * 1024 * 1024, Protocol::Unshared);
    assert!(storctl::executor::create_replica(&mut registry, &mut store, None, &replica, true).is_ok());

    assert_eq!(registry.replicas.len(), 1);
    let created = &registry.replicas[0];
    assert_eq!(created.uuid, replica.uuid);
    assert_eq!(created.pool, replica.pool);
    assert_eq!(created.thin, replica.thin);
    assert_eq!(created.share, replica.share);
    assert_eq!(created.size, replica.size);
}

#[test]
fn create_replica_idempotent_different_sizes() {
    let mut registry = ResourceSpecs::new();
    let mut store = KeyValueStore::new();
    let size = 5 * 1024 * 1024;
    let replica = create_replica_request(size, Protocol::Unshared);
    assert!(storctl::executor::create_replica(&mut registry, &mut store, None, &replica, true).is_ok());

    // identical parameters: success, spec unchanged
    let again = create_replica_request(size, Protocol::Unshared);
    assert!(storctl::executor::create_replica(&mut registry, &mut store, None, &again, true).is_ok());
    assert_eq!(registry.replicas.len(), 1);
    assert_eq!(registry.replicas[0].size, size);

    // a different size under the same uuid is refused, spec unchanged
    for wrong in [size / 2, size * 2] {
        let other = create_replica_request(wrong, Protocol::Unshared);
        assert_eq!(
            storctl::executor::create_replica(&mut registry, &mut store, None, &other, true),
            Err(SvcError::AlreadyExists)
        );
        assert_eq!(registry.replicas[0].size, size);
    }
}

#[test]
fn create_replica_idempotent_different_protocols() {
    let mut registry = ResourceSpecs::new();
    let mut store = KeyValueStore::new();
    let size = 5 * 1024 * 1024;
    let replica = create_replica_request(size, Protocol::Unshared);
    assert!(storctl::executor::create_replica(&mut registry, &mut store, None, &replica, true).is_ok());

    // the same protocol is accepted again; others are refused
    let same = create_replica_request(size, Protocol::Unshared);
    assert!(storctl::executor::create_replica(&mut registry, &mut store, None, &same, true).is_ok());
    for wrong in [Protocol::Iscsi, Protocol::Nvmf] {
        let other = create_replica_request(size, wrong);
        assert_eq!(
            storctl::executor::create_replica(&mut registry, &mut store, None, &other, true),
            Err(SvcError::AlreadyExists)
        );
    }
}

#[test]
fn share_and_unshare_replica() {
    let mut registry = ResourceSpecs::new();
    let mut store = KeyValueStore::new();
    let replica = create_replica_request(1024, Protocol::Unshared);
    assert!(storctl::executor::create_replica(&mut registry, &mut store, None, &replica, true).is_ok());

    let share = ShareReplica {
        node: "n0".to_string(),
        pool: "p0".to_string(),
        name: None,
        uuid: uuid(1),
        protocol: ReplicaShareProtocol::Nvmf,
    };
    assert!(share_replica(&mut registry, &mut store, None, &share, true).is_ok());
    assert_eq!(registry.replicas[0].share, Protocol::Nvmf);

    // sharing a shared replica is refused
    assert_eq!(
        share_replica(&mut registry, &mut store, None, &share, true),
        Err(SvcError::AlreadyShared)
    );

    let unshare = UnshareReplica {
        node: "n0".to_string(),
        pool: "p0".to_string(),
        name: None,
        uuid: uuid(1),
    };
    assert!(unshare_replica(&mut registry, &mut store, None, &unshare, true).is_ok());
    assert_eq!(registry.replicas[0].share, Protocol::Unshared);
    assert_eq!(
        unshare_replica(&mut registry, &mut store, None, &unshare, true),
        Err(SvcError::NotShared)
    );

    // an unknown replica cannot be shared
    let missing = ShareReplica { uuid: uuid(9), ..share };
    assert_eq!(
        share_replica(&mut registry, &mut store, None, &missing, true),
        Err(SvcError::NotFound)
    );
}

#[test]
fn destroy_replica_scenario() {
    let mut registry = ResourceSpecs::new();
    let mut store = KeyValueStore::new();
    let replica = create_replica_request(1024, Protocol::Unshared);
    assert!(storctl::executor::create_replica(&mut registry, &mut store, None, &replica, true).is_ok());

    let destroy = DestroyReplica {
        node: "n0".to_string(),
        pool: "p0".to_string(),
        name: None,
        uuid: uuid(1),
        disowners: ReplicaOwners::new_disown_all(),
    };
    assert!(destroy_replica(&mut registry, &mut store, None, &destroy, true).is_ok());
    assert!(registry.replicas.is_empty());
    // a second destroy of the absent replica succeeds
    assert!(destroy_replica(&mut registry, &mut store, None, &destroy, true).is_ok());
}

#[test]
fn crash_replay_is_all_or_nothing() {
    // a record recovered with its result recorded true is committed; any
    // other recovered record is cleared back to the pre-operation spec
    let request = create_pool_request();

    let mut pre = PoolSpec::from_request(&request);
    pre.start_op(PoolOperation::Create);
    let mut as_crashed_before_result = pre.clone();
    replay_pool_op(&mut as_crashed_before_result);
    assert!(as_crashed_before_result.operation.is_none());
    assert!(matches!(as_crashed_before_result.status, SpecStatus::Creating));

    let mut as_crashed_after_result = pre.clone();
    as_crashed_after_result.set_op_result(true);
    replay_pool_op(&mut as_crashed_after_result);
    assert!(as_crashed_after_result.operation.is_none());
    assert_eq!(
        as_crashed_after_result.status,
        SpecStatus::Created(storctl::msg::PoolStatus::Online)
    );

    let mut as_failed = pre.clone();
    as_failed.set_op_result(false);
    replay_pool_op(&mut as_failed);
    assert!(as_failed.operation.is_none());
    assert!(matches!(as_failed.status, SpecStatus::Creating));
}

#[test]
fn busy_and_conflict_are_fail_fast() {
    let mut registry = ResourceSpecs::new();
    let mut store = KeyValueStore::new();
    let request = create_pool_request();
    assert!(create_pool(&mut registry, &mut store, None, &request, true).is_ok());
    let destroy = DestroyPool { node: "n0".to_string(), id: "p0".to_string() };

    // a held sequencer defers the caller with `Busy`, touching nothing
    assert!(registry.pools[0].sequencer.try_acquire(OperationMode::ReconcileStart));
    assert_eq!(
        destroy_pool(&mut registry, &mut store, None, &destroy, true),
        Err(SvcError::Busy)
    );
    registry.pools[0].sequencer.release(OperationMode::ReconcileStart);

    // a pending operation on the spec answers `Conflict`
    registry.pools[0].start_op(PoolOperation::Destroy);
    assert_eq!(
        destroy_pool(&mut registry, &mut store, None, &destroy, true),
        Err(SvcError::Conflict)
    );
    registry.pools[0].clear_op();
    assert!(destroy_pool(&mut registry, &mut store, None, &destroy, true).is_ok());
}

#[test]
fn create_during_pending_operation_conflicts() {
    // a repeated identical create while a mutation is mid-flight answers
    // `Conflict`, not success
    let mut registry = ResourceSpecs::new();
    let mut store = KeyValueStore::new();
    let request = create_pool_request();
    assert!(create_pool(&mut registry, &mut store, None, &request, true).is_ok());
    registry.pools[0].start_op(PoolOperation::Destroy);
    assert_eq!(
        create_pool(&mut registry, &mut store, None, &create_pool_request(), true),
        Err(SvcError::Conflict)
    );
    registry.pools[0].clear_op();
    assert!(create_pool(&mut registry, &mut store, None, &create_pool_request(), true).is_ok());
}

#[test]
fn conversion_helpers() {
    let small: Vec<u8> = vec![1, 2, 3];
    let wide: Vec<u64> = small.into_vec();
    assert_eq!(wide, vec![1u64, 2, 3]);
    let none: Option<u8> = None;
    let still_none: Option<u64> = none.into_opt();
    assert!(still_none.is_none());
    let some: Option<u8> = Some(7);
    assert_eq!(some.into_opt(), Some(7u64));
}

#[test]
fn prefix_scan() {
    let mut registry = ResourceSpecs::new();
    let mut store = KeyValueStore::new();
    assert!(create_pool(&mut registry, &mut store, None, &create_pool_request(), true).is_ok());
    let replica = create_replica_request(1024, Protocol::Unshared);
    assert!(storctl::executor::create_replica(&mut registry, &mut store, None, &replica, true)
        .is_ok());

    let pools = store.get_values_prefix(&"spec/pool/".to_string());
    assert_eq!(pools.len(), 1);
    assert_eq!(pools[0].0, "spec/pool/p0");
    let replicas = store.get_values_prefix(&"spec/replica/".to_string());
    assert_eq!(replicas.len(), 1);
    let everything = store.get_values_prefix(&"spec/".to_string());
    assert_eq!(everything.len(), 2);
    let none = store.get_values_prefix(&"info/".to_string());
    assert!(none.is_empty());
}

#[test]
fn garbage_collection_sweeps_deleting_nexuses() {
    // a nexus spec left deleting, its nexus gone from the data plane, is
    // swept from the registry and the store; a reported one is kept
    let mut registry = ResourceSpecs::new();
    let mut store = KeyValueStore::new();
    let gone = storctl::nexusspec::NexusSpec {
        uuid: "00000000-0000-0000-0000-000000000010".to_string(),
        node: "n0".to_string(),
        children: vec![],
        size: 100,
        status: storctl::specs::SpecStatus::Deleting,
        share: Protocol::Unshared,
        managed: true,
        owner: None,
        sequencer: OperationSequence::new("00000000-0000-0000-0000-000000000010".to_string()),
        operation: None,
    };
    let key = gone.key();
    assert!(store
        .put_kv(None, &key, StoredValue::Nexus(gone.clone()))
        .is_ok());
    assert!(registry.insert_nexus(gone));

    // still reported: nothing happens
    let present = vec!["00000000-0000-0000-0000-000000000010".to_string()];
    assert!(storctl::executor::collect_nexus_garbage(&mut registry, &mut store, None, &present)
        .is_ok());
    assert_eq!(registry.nexuses.len(), 1);

    // gone from the data plane: swept from registry and store
    assert!(storctl::executor::collect_nexus_garbage(&mut registry, &mut store, None, &vec![])
        .is_ok());
    assert!(registry.nexuses.is_empty());
    assert!(matches!(store.get_kv(&key), Err(StoreError::MissingEntry)));
}

#[test]
fn create_pool_labels_compare_as_a_map() {
    // the same labels in a different order are the same request: the
    // repeated create is idempotent, as the labels are a map
    let mut registry = ResourceSpecs::new();
    let mut store = KeyValueStore::new();
    let mut first = create_pool_request();
    first.labels = Some(vec![
        ("zone".to_string(), "a".to_string()),
        ("rack".to_string(), "7".to_string()),
    ]);
    assert!(create_pool(&mut registry, &mut store, None, &first, true).is_ok());

    let mut reordered = create_pool_request();
    reordered.labels = Some(vec![
        ("rack".to_string(), "7".to_string()),
        ("zone".to_string(), "a".to_string()),
    ]);
    assert!(create_pool(&mut registry, &mut store, None, &reordered, true).is_ok());
    assert_eq!(registry.pools.len(), 1);

    let mut different = create_pool_request();
    different.labels = Some(vec![("zone".to_string(), "b".to_string())]);
    assert_eq!(
        create_pool(&mut registry, &mut store, None, &different, true),
        Err(SvcError::AlreadyExists)
    );
}
