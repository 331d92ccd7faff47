//! The operation executor: the single pipeline every mutation goes
//! through. It takes the resource's sequencer, records the pending
//! operation in the store under the lease, lets the data plane act, then
//! commits or rolls back — so that a crash at any point leaves a record
//! that replays to either the old spec or the new one, never to anything
//! in between.

use crate::msg::{CreatePool, CreateReplica, DestroyPool, DestroyReplica, ShareReplica,
    UnshareReplica};
use crate::pool::{PoolOperation, PoolSpec};
use crate::replica::{ReplicaOperation, ReplicaSpec};
use crate::registry::ResourceSpecs;
use crate::sequencer::OperationMode;
use crate::specs::SpecStatus;
use crate::store::{KeyValueStore, LeasePair, StoredValue};
use vstd::prelude::*;

verus! {

/// The errors the executor surfaces to callers.
#[derive(Clone, Copy, Debug, PartialEq, Eq, Structural)]
pub enum SvcError {
    /// The resource's sequencer is held; retry later.
    Busy,
    /// Another mutation is mid-flight on this resource.
    Conflict,
    /// The lease was lost: no further write can commit.
    NotReady,
    /// A create found a spec with the same id but different content.
    AlreadyExists,
    /// The resource is not known.
    NotFound,
    /// The resource is being deleted.
    Deleting,
    /// The replica is already shared.
    AlreadyShared,
    /// The replica is not shared.
    NotShared,
    /// The data plane refused the operation.
    Internal,
}

/// The lease handed to a store write, as a spec-level value.
pub open spec fn spec_lease_of(lease: Option<&LeasePair>) -> Option<LeasePair> {
    match lease {
        Some(l) => Some(*l),
        None => None,
    }
}

/// The store key text of the pool spec with the given id.
pub open spec fn spec_pool_key(id: Seq<char>) -> Seq<char> {
    "spec/pool/"@ + id
}

/// Create a pool: a repeated create of the same content succeeds and
/// changes nothing; a spec with a mutation mid-flight answers `Conflict`;
/// a create of different content under a known id is refused; a fresh
/// create persists the spec as `Creating` under the lease, lets the data
/// plane act (`dp_ok` carries its outcome), then commits to
/// `Created(Online)` or rolls the record back.
pub fn create_pool(
    registry: &mut ResourceSpecs,
    store: &mut KeyValueStore,
    lease: Option<&LeasePair>,
    request: &CreatePool,
    dp_ok: bool,
) -> (r: Result<(), SvcError>)
    requires
        old(registry).wf(),
        old(store).wf(),
    ensures
        final(registry).wf(),
        final(store).wf(),
        // which outcome comes on which input
        ({
            let existing = old(registry).spec_pool_of(request.id@);
            match existing {
                Some(p) => {
                    &&& (r is Ok <==> p.spec_matches_request(*request))
                    &&& (p.spec_pending() ==> r->Err_0 is Conflict)
                    &&& (r is Err && !p.spec_pending() ==> r->Err_0 is AlreadyExists)
                    &&& *final(registry) == *old(registry)
                    &&& *final(store) == *old(store)
                },
                None => {
                    let allowed = old(store).spec_write_allowed(spec_lease_of(lease));
                    &&& (r is Ok <==> allowed && dp_ok)
                    &&& (!allowed ==> r->Err_0 is NotReady && *final(registry) == *old(registry)
                        && *final(store) == *old(store))
                    &&& (allowed && !dp_ok ==> r->Err_0 is Internal)
                    &&& (allowed && !dp_ok ==> *final(registry) == *old(registry))
                    &&& (allowed && !dp_ok ==> final(store).spec_get(spec_pool_key(request.id@))
                        is None)
                },
            }
        }),
        // a successful fresh create leaves the created spec in the registry
        // and, equivalently, in the store
        ({
            let existing = old(registry).spec_pool_of(request.id@);
            r is Ok && existing is None ==> {
                let created = final(registry).spec_pool_of(request.id@);
                &&& created matches Some(p)
                &&& p.spec_matches_request(*request)
                &&& p.status == SpecStatus::<crate::msg::PoolStatus>::Created(
                    crate::msg::PoolStatus::Online,
                )
                &&& p.operation is None
                &&& (final(store).spec_get(spec_pool_key(request.id@)) matches Some(
                    StoredValue::Pool(q),
                ) && q.spec_eqv(p))
            }
        }),
        // nothing but this pool's record is touched in the store
        forall|k: Seq<char>|
            k != spec_pool_key(request.id@) ==> final(store).spec_get(k) == old(store).spec_get(
                k,
            ),
        final(store).locks@ == old(store).locks@,
        // nothing but the pool map is touched in the registry
        final(registry).replicas@ == old(registry).replicas@,
        final(registry).nexuses@ == old(registry).nexuses@,
        final(registry).volumes@ == old(registry).volumes@,
{
    match registry.pool_index(&request.id) {
        Some(i) => {
            if registry.pools[i].pending_op() {
                Err(SvcError::Conflict)
            } else if registry.pools[i].matches_request(request) {
                Ok(())
            } else {
                Err(SvcError::AlreadyExists)
            }
        },
        None => {
            let mut spec = PoolSpec::from_request(request);
            let granted = spec.sequencer.try_acquire(OperationMode::Exclusive);
            spec.start_op(PoolOperation::Create);
            let keytext = spec.key().key();
            match store.put_kv(lease, &keytext, StoredValue::Pool(spec.clone())) {
                Ok(()) => {},
                Err(_) => {
                    return Err(SvcError::NotReady);
                },
            }
            // the data plane creates the pool here; dp_ok is its outcome
            spec.set_op_result(dp_ok);
            if dp_ok {
                spec.commit_op();
                spec.sequencer.release(OperationMode::Exclusive);
                match store.put_kv(lease, &keytext, StoredValue::Pool(spec.clone())) {
                    Ok(()) => {},
                    Err(_) => {
                        // unreachable: the first conditional write held the
                        // lock, and nothing has touched the locks since
                        proof {
                            assert(false);
                        }
                        return Err(SvcError::NotReady);
                    },
                }
                let inserted = registry.insert_pool(spec);
                proof {
                    assert(granted);
                    assert(inserted);
                }
                Ok(())
            } else {
                match store.delete_kv(lease, &keytext) {
                    Ok(()) => {},
                    Err(_) => {
                        // unreachable: the first conditional write held the
                        // lock, and nothing has touched the locks since
                        proof {
                            assert(false);
                        }
                        return Err(SvcError::NotReady);
                    },
                }
                Err(SvcError::Internal)
            }
        },
    }
}

/// Destroy a pool: destroying an unknown pool succeeds; on a known pool
/// the pipeline marks the spec `Deleting`, persists the pending destroy
/// under the lease, lets the data plane act, then removes the record and
/// the spec, or leaves the spec `Deleting` for the garbage collector.
pub fn destroy_pool(
    registry: &mut ResourceSpecs,
    store: &mut KeyValueStore,
    lease: Option<&LeasePair>,
    request: &DestroyPool,
    dp_ok: bool,
) -> (r: Result<(), SvcError>)
    requires
        old(registry).wf(),
        old(store).wf(),
    ensures
        final(registry).wf(),
        final(store).wf(),
        ({
            let existing = old(registry).spec_pool_of(request.id@);
            let allowed = old(store).spec_write_allowed(spec_lease_of(lease));
            match existing {
                None => r is Ok && *final(registry) == *old(registry) && *final(store) == *old(store),
                Some(p) => {
                    let busy = crate::sequencer::spec_try_acquire(
                        p.sequencer.state,
                        OperationMode::Exclusive,
                    ) is None;
                    &&& (busy ==> r->Err_0 is Busy && *final(registry) == *old(registry)
                        && *final(store) == *old(store))
                    &&& (!busy && p.spec_pending() ==> r->Err_0 is Conflict && *final(registry)
                        == *old(registry) && *final(store) == *old(store))
                    &&& (!busy && !p.spec_pending() && !allowed ==> r->Err_0 is NotReady
                        && *final(registry) == *old(registry) && *final(store) == *old(store))
                    &&& (!busy && !p.spec_pending() && allowed && dp_ok ==> r is Ok)
                    &&& (!busy && !p.spec_pending() && allowed && dp_ok ==> final(registry)
                        .spec_pool_of(request.id@) is None)
                    &&& (!busy && !p.spec_pending() && allowed && dp_ok ==> final(store).spec_get(
                        spec_pool_key(request.id@),
                    ) is None)
                    &&& (!busy && !p.spec_pending() && allowed && !dp_ok ==> r->Err_0 is Internal
                        && ({
                        let after = final(registry).spec_pool_of(request.id@);
                        &&& after matches Some(q)
                        &&& q.status is Deleting
                        &&& q.operation is None
                        &&& q.node == p.node
                        &&& q.id == p.id
                        &&& q.disks@ == p.disks@
                    }))
                },
            }
        }),
        forall|k: Seq<char>|
            k != spec_pool_key(request.id@) ==> final(store).spec_get(k) == old(store).spec_get(
                k,
            ),
        final(store).locks@ == old(store).locks@,
        final(registry).replicas@ == old(registry).replicas@,
        final(registry).nexuses@ == old(registry).nexuses@,
        final(registry).volumes@ == old(registry).volumes@,
{
    match registry.pool_index(&request.id) {
        None => Ok(()),
        Some(i) => {
            let mut spec = registry.pools[i].clone();
            if !spec.sequencer.try_acquire(OperationMode::Exclusive) {
                return Err(SvcError::Busy);
            }
            if spec.pending_op() {
                return Err(SvcError::Conflict);
            }
            spec.status = SpecStatus::Deleting;
            spec.start_op(PoolOperation::Destroy);
            let keytext = spec.key().key();
            match store.put_kv(lease, &keytext, StoredValue::Pool(spec.clone())) {
                Ok(()) => {},
                Err(_) => {
                    return Err(SvcError::NotReady);
                },
            }
            // the data plane destroys the pool here; dp_ok is its outcome
            spec.set_op_result(dp_ok);
            if dp_ok {
                match store.delete_kv(lease, &keytext) {
                    Ok(()) => {},
                    Err(_) => {
                        // unreachable: the first conditional write held the
                        // lock, and nothing has touched the locks since
                        proof {
                            assert(false);
                        }
                        return Err(SvcError::NotReady);
                    },
                }
                registry.remove_pool(&request.id);
                Ok(())
            } else {
                spec.clear_op();
                spec.sequencer.release(OperationMode::Exclusive);
                match store.put_kv(lease, &keytext, StoredValue::Pool(spec.clone())) {
                    Ok(()) => {},
                    Err(_) => {
                        // unreachable: the first conditional write held the
                        // lock, and nothing has touched the locks since
                        proof {
                            assert(false);
                        }
                        return Err(SvcError::NotReady);
                    },
                }
                registry.set_pool(i, spec);
                Err(SvcError::Internal)
            }
        },
    }
}

/// The store key text of the replica spec with the given uuid.
pub open spec fn spec_replica_key(id: Seq<char>) -> Seq<char> {
    "spec/replica/"@ + id
}

/// The fields of a replica spec that no mutation rewrites: identity,
/// placement, geometry and ownership.
pub open spec fn spec_replica_same_core(a: ReplicaSpec, b: ReplicaSpec) -> bool {
    &&& a.name == b.name
    &&& a.uuid == b.uuid
    &&& a.size == b.size
    &&& a.pool == b.pool
    &&& a.thin == b.thin
    &&& a.managed == b.managed
    &&& a.owners.spec_eqv(b.owners)
}

/// Create a replica: a repeated create of the same content succeeds and
/// changes nothing; a spec with a mutation mid-flight answers `Conflict`;
/// a create of different content under a known uuid is refused with
/// `AlreadyExists`; a fresh create runs the pending-persist, data-plane,
/// commit pipeline under the lease.
pub fn create_replica(
    registry: &mut ResourceSpecs,
    store: &mut KeyValueStore,
    lease: Option<&LeasePair>,
    request: &CreateReplica,
    dp_ok: bool,
) -> (r: Result<(), SvcError>)
    requires
        old(registry).wf(),
        old(store).wf(),
    ensures
        final(registry).wf(),
        final(store).wf(),
        ({
            let existing = old(registry).spec_replica_of(request.uuid@);
            match existing {
                Some(p) => {
                    &&& (r is Ok <==> p.spec_matches_request(*request))
                    &&& (p.spec_pending() ==> r->Err_0 is Conflict)
                    &&& (r is Err && !p.spec_pending() ==> r->Err_0 is AlreadyExists)
                    &&& *final(registry) == *old(registry)
                    &&& *final(store) == *old(store)
                },
                None => {
                    let allowed = old(store).spec_write_allowed(spec_lease_of(lease));
                    &&& (r is Ok <==> allowed && dp_ok)
                    &&& (!allowed ==> r->Err_0 is NotReady && *final(registry) == *old(registry)
                        && *final(store) == *old(store))
                    &&& (allowed && !dp_ok ==> r->Err_0 is Internal)
                    &&& (allowed && !dp_ok ==> *final(registry) == *old(registry))
                    &&& (allowed && !dp_ok ==> final(store).spec_get(
                        spec_replica_key(request.uuid@),
                    ) is None)
                },
            }
        }),
        ({
            let existing = old(registry).spec_replica_of(request.uuid@);
            r is Ok && existing is None ==> {
                let created = final(registry).spec_replica_of(request.uuid@);
                &&& created matches Some(p)
                &&& p.spec_matches_request(*request)
                &&& p.status == SpecStatus::<crate::msg::ReplicaStatus>::Created(
                    crate::msg::ReplicaStatus::Online,
                )
                &&& p.operation is None
                &&& (final(store).spec_get(spec_replica_key(request.uuid@)) matches Some(
                    StoredValue::Replica(q),
                ) && q.spec_eqv(p))
            }
        }),
        forall|k: Seq<char>|
            k != spec_replica_key(request.uuid@) ==> final(store).spec_get(k) == old(store).spec_get(k),
        final(store).locks@ == old(store).locks@,
        final(registry).pools@ == old(registry).pools@,
        final(registry).nexuses@ == old(registry).nexuses@,
        final(registry).volumes@ == old(registry).volumes@,
{
    match registry.replica_index(&request.uuid) {
        Some(i) => {
            if registry.replicas[i].pending_op() {
                Err(SvcError::Conflict)
            } else if registry.replicas[i].matches_request(request) {
                Ok(())
            } else {
                Err(SvcError::AlreadyExists)
            }
        },
        None => {
            let mut spec = ReplicaSpec::from_request(request);
            let granted = spec.sequencer.try_acquire(OperationMode::Exclusive);
            spec.start_op(ReplicaOperation::Create);
            let keytext = spec.key();
            match store.put_kv(lease, &keytext, StoredValue::Replica(spec.clone())) {
                Ok(()) => {},
                Err(_) => {
                    return Err(SvcError::NotReady);
                },
            }
            // the data plane creates the replica here; dp_ok is its outcome
            spec.set_op_result(dp_ok);
            if dp_ok {
                spec.commit_op();
                spec.sequencer.release(OperationMode::Exclusive);
                match store.put_kv(lease, &keytext, StoredValue::Replica(spec.clone())) {
                    Ok(()) => {},
                    Err(_) => {
                        // unreachable: the first conditional write held the
                        // lock, and nothing has touched the locks since
                        proof {
                            assert(false);
                        }
                        return Err(SvcError::NotReady);
                    },
                }
                let inserted = registry.insert_replica(spec);
                proof {
                    assert(granted);
                    assert(inserted);
                }
                Ok(())
            } else {
                match store.delete_kv(lease, &keytext) {
                    Ok(()) => {},
                    Err(_) => {
                        // unreachable: the first conditional write held the
                        // lock, and nothing has touched the locks since
                        proof {
                            assert(false);
                        }
                        return Err(SvcError::NotReady);
                    },
                }
                Err(SvcError::Internal)
            }
        },
    }
}

/// Destroy a replica: destroying an unknown replica succeeds; a known one
/// runs the destroy pipeline and leaves the store and the registry without
/// the spec, or leaves it `Deleting` when the data plane refused.
pub fn destroy_replica(
    registry: &mut ResourceSpecs,
    store: &mut KeyValueStore,
    lease: Option<&LeasePair>,
    request: &DestroyReplica,
    dp_ok: bool,
) -> (r: Result<(), SvcError>)
    requires
        old(registry).wf(),
        old(store).wf(),
    ensures
        final(registry).wf(),
        final(store).wf(),
        ({
            let existing = old(registry).spec_replica_of(request.uuid@);
            let allowed = old(store).spec_write_allowed(spec_lease_of(lease));
            match existing {
                None => r is Ok && *final(registry) == *old(registry) && *final(store) == *old(store),
                Some(p) => {
                    let busy = crate::sequencer::spec_try_acquire(
                        p.sequencer.state,
                        OperationMode::Exclusive,
                    ) is None;
                    &&& (busy ==> r->Err_0 is Busy && *final(registry) == *old(registry)
                        && *final(store) == *old(store))
                    &&& (!busy && p.spec_pending() ==> r->Err_0 is Conflict && *final(registry)
                        == *old(registry) && *final(store) == *old(store))
                    &&& (!busy && !p.spec_pending() && !allowed ==> r->Err_0 is NotReady
                        && *final(registry) == *old(registry) && *final(store) == *old(store))
                    &&& (!busy && !p.spec_pending() && allowed && dp_ok ==> r is Ok)
                    &&& (!busy && !p.spec_pending() && allowed && dp_ok ==> final(registry)
                        .spec_replica_of(request.uuid@) is None)
                    &&& (!busy && !p.spec_pending() && allowed && dp_ok ==> final(store).spec_get(
                        spec_replica_key(request.uuid@),
                    ) is None)
                    &&& (!busy && !p.spec_pending() && allowed && !dp_ok ==> r->Err_0 is Internal
                        && ({
                        let after = final(registry).spec_replica_of(request.uuid@);
                        &&& after matches Some(q)
                        &&& q.status is Deleting
                        &&& q.operation is None
                        &&& spec_replica_same_core(q, p)
                    }))
                },
            }
        }),
        forall|k: Seq<char>|
            k != spec_replica_key(request.uuid@) ==> final(store).spec_get(k) == old(store).spec_get(k),
        final(store).locks@ == old(store).locks@,
        final(registry).pools@ == old(registry).pools@,
        final(registry).nexuses@ == old(registry).nexuses@,
        final(registry).volumes@ == old(registry).volumes@,
{
    match registry.replica_index(&request.uuid) {
        None => Ok(()),
        Some(i) => {
            let mut spec = registry.replicas[i].clone();
            if !spec.sequencer.try_acquire(OperationMode::Exclusive) {
                return Err(SvcError::Busy);
            }
            if spec.pending_op() {
                return Err(SvcError::Conflict);
            }
            spec.status = SpecStatus::Deleting;
            spec.start_op(ReplicaOperation::Destroy);
            let keytext = spec.key();
            match store.put_kv(lease, &keytext, StoredValue::Replica(spec.clone())) {
                Ok(()) => {},
                Err(_) => {
                    return Err(SvcError::NotReady);
                },
            }
            // the data plane destroys the replica here; dp_ok is its outcome
            spec.set_op_result(dp_ok);
            if dp_ok {
                match store.delete_kv(lease, &keytext) {
                    Ok(()) => {},
                    Err(_) => {
                        // unreachable: the first conditional write held the
                        // lock, and nothing has touched the locks since
                        proof {
                            assert(false);
                        }
                        return Err(SvcError::NotReady);
                    },
                }
                registry.remove_replica(&request.uuid);
                Ok(())
            } else {
                spec.clear_op();
                spec.sequencer.release(OperationMode::Exclusive);
                match store.put_kv(lease, &keytext, StoredValue::Replica(spec.clone())) {
                    Ok(()) => {},
                    Err(_) => {
                        // unreachable: the first conditional write held the
                        // lock, and nothing has touched the locks since
                        proof {
                            assert(false);
                        }
                        return Err(SvcError::NotReady);
                    },
                }
                registry.set_replica(i, spec);
                Err(SvcError::Internal)
            }
        },
    }
}

/// Share a replica over the requested protocol: refused with
/// `AlreadyShared` when the spec already shares it, `NotFound` when the
/// uuid is unknown; otherwise the pipeline commits the new share protocol
/// into the spec.
pub fn share_replica(
    registry: &mut ResourceSpecs,
    store: &mut KeyValueStore,
    lease: Option<&LeasePair>,
    request: &ShareReplica,
    dp_ok: bool,
) -> (r: Result<(), SvcError>)
    requires
        old(registry).wf(),
        old(store).wf(),
    ensures
        final(registry).wf(),
        final(store).wf(),
        ({
            let existing = old(registry).spec_replica_of(request.uuid@);
            let allowed = old(store).spec_write_allowed(spec_lease_of(lease));
            match existing {
                None => r->Err_0 is NotFound && *final(registry) == *old(registry) && *final(store) == *old(store),
                Some(p) => {
                    let busy = crate::sequencer::spec_try_acquire(
                        p.sequencer.state,
                        OperationMode::Exclusive,
                    ) is None;
                    &&& (busy ==> r->Err_0 is Busy && *final(registry) == *old(registry)
                        && *final(store) == *old(store))
                    &&& (!busy && p.spec_pending() ==> r->Err_0 is Conflict && *final(registry)
                        == *old(registry) && *final(store) == *old(store))
                    &&& (!busy && !p.spec_pending() && p.share !is Unshared ==> r->Err_0
                        is AlreadyShared && *final(registry) == *old(registry) && *final(store)
                        == *old(store))
                    &&& (!busy && !p.spec_pending() && p.share is Unshared && !allowed ==> r->Err_0
                        is NotReady && *final(registry) == *old(registry) && *final(store) == *old(store))
                    &&& (!busy && !p.spec_pending() && p.share is Unshared && allowed ==> (r is Ok
                        <==> dp_ok))
                    &&& (!busy && !p.spec_pending() && p.share is Unshared && allowed && dp_ok
                        ==> ({
                        let after = final(registry).spec_replica_of(request.uuid@);
                        &&& after matches Some(q)
                        &&& q.share is Nvmf
                        &&& q.status == p.status
                        &&& q.operation is None
                        &&& spec_replica_same_core(q, p)
                        &&& (final(store).spec_get(spec_replica_key(request.uuid@)) matches Some(
                            StoredValue::Replica(s),
                        ) && s.spec_eqv(q))
                    }))
                    &&& (!busy && !p.spec_pending() && p.share is Unshared && allowed && !dp_ok
                        ==> r->Err_0 is Internal && ({
                        let after = final(registry).spec_replica_of(request.uuid@);
                        &&& after matches Some(q)
                        &&& q.share == p.share
                        &&& q.status == p.status
                        &&& q.operation is None
                        &&& spec_replica_same_core(q, p)
                    }))
                },
            }
        }),
        forall|k: Seq<char>|
            k != spec_replica_key(request.uuid@) ==> final(store).spec_get(k) == old(store).spec_get(k),
        final(store).locks@ == old(store).locks@,
        final(registry).pools@ == old(registry).pools@,
        final(registry).nexuses@ == old(registry).nexuses@,
        final(registry).volumes@ == old(registry).volumes@,
{
    match registry.replica_index(&request.uuid) {
        None => Err(SvcError::NotFound),
        Some(i) => {
            let mut spec = registry.replicas[i].clone();
            if !spec.sequencer.try_acquire(OperationMode::Exclusive) {
                return Err(SvcError::Busy);
            }
            if spec.pending_op() {
                return Err(SvcError::Conflict);
            }
            if spec.share.shared() {
                return Err(SvcError::AlreadyShared);
            }
            spec.start_op(ReplicaOperation::Share(request.protocol));
            let keytext = spec.key();
            match store.put_kv(lease, &keytext, StoredValue::Replica(spec.clone())) {
                Ok(()) => {},
                Err(_) => {
                    return Err(SvcError::NotReady);
                },
            }
            // the data plane shares the replica here; dp_ok is its outcome
            spec.set_op_result(dp_ok);
            if dp_ok {
                spec.commit_op();
            } else {
                spec.clear_op();
            }
            spec.sequencer.release(OperationMode::Exclusive);
            match store.put_kv(lease, &keytext, StoredValue::Replica(spec.clone())) {
                Ok(()) => {},
                Err(_) => {
                    // unreachable: the first conditional write held the
                    // lock, and nothing has touched the locks since
                    proof {
                        assert(false);
                    }
                    return Err(SvcError::NotReady);
                },
            }
            registry.set_replica(i, spec);
            if dp_ok {
                Ok(())
            } else {
                Err(SvcError::Internal)
            }
        },
    }
}

/// Unshare a replica: refused with `NotShared` when the spec does not
/// share it, `NotFound` when the uuid is unknown; otherwise the pipeline
/// commits the share protocol back to none.
pub fn unshare_replica(
    registry: &mut ResourceSpecs,
    store: &mut KeyValueStore,
    lease: Option<&LeasePair>,
    request: &UnshareReplica,
    dp_ok: bool,
) -> (r: Result<(), SvcError>)
    requires
        old(registry).wf(),
        old(store).wf(),
    ensures
        final(registry).wf(),
        final(store).wf(),
        ({
            let existing = old(registry).spec_replica_of(request.uuid@);
            let allowed = old(store).spec_write_allowed(spec_lease_of(lease));
            match existing {
                None => r->Err_0 is NotFound && *final(registry) == *old(registry) && *final(store) == *old(store),
                Some(p) => {
                    let busy = crate::sequencer::spec_try_acquire(
                        p.sequencer.state,
                        OperationMode::Exclusive,
                    ) is None;
                    &&& (busy ==> r->Err_0 is Busy && *final(registry) == *old(registry)
                        && *final(store) == *old(store))
                    &&& (!busy && p.spec_pending() ==> r->Err_0 is Conflict && *final(registry)
                        == *old(registry) && *final(store) == *old(store))
                    &&& (!busy && !p.spec_pending() && p.share is Unshared ==> r->Err_0
                        is NotShared && *final(registry) == *old(registry) && *final(store)
                        == *old(store))
                    &&& (!busy && !p.spec_pending() && p.share !is Unshared && !allowed
                        ==> r->Err_0 is NotReady && *final(registry) == *old(registry) && *final(store) == *old(store))
                    &&& (!busy && !p.spec_pending() && p.share !is Unshared && allowed ==> (r
                        is Ok <==> dp_ok))
                    &&& (!busy && !p.spec_pending() && p.share !is Unshared && allowed && dp_ok
                        ==> ({
                        let after = final(registry).spec_replica_of(request.uuid@);
                        &&& after matches Some(q)
                        &&& q.share is Unshared
                        &&& q.status == p.status
                        &&& q.operation is None
                        &&& spec_replica_same_core(q, p)
                    }))
                    &&& (!busy && !p.spec_pending() && p.share !is Unshared && allowed && !dp_ok
                        ==> r->Err_0 is Internal && ({
                        let after = final(registry).spec_replica_of(request.uuid@);
                        &&& after matches Some(q)
                        &&& q.share == p.share
                        &&& q.status == p.status
                        &&& q.operation is None
                        &&& spec_replica_same_core(q, p)
                    }))
                },
            }
        }),
        forall|k: Seq<char>|
            k != spec_replica_key(request.uuid@) ==> final(store).spec_get(k) == old(store).spec_get(k),
        final(store).locks@ == old(store).locks@,
        final(registry).pools@ == old(registry).pools@,
        final(registry).nexuses@ == old(registry).nexuses@,
        final(registry).volumes@ == old(registry).volumes@,
{
    match registry.replica_index(&request.uuid) {
        None => Err(SvcError::NotFound),
        Some(i) => {
            let mut spec = registry.replicas[i].clone();
            if !spec.sequencer.try_acquire(OperationMode::Exclusive) {
                return Err(SvcError::Busy);
            }
            if spec.pending_op() {
                return Err(SvcError::Conflict);
            }
            if !spec.share.shared() {
                return Err(SvcError::NotShared);
            }
            spec.start_op(ReplicaOperation::Unshare);
            let keytext = spec.key();
            match store.put_kv(lease, &keytext, StoredValue::Replica(spec.clone())) {
                Ok(()) => {},
                Err(_) => {
                    return Err(SvcError::NotReady);
                },
            }
            // the data plane unshares the replica here; dp_ok is its outcome
            spec.set_op_result(dp_ok);
            if dp_ok {
                spec.commit_op();
            } else {
                spec.clear_op();
            }
            spec.sequencer.release(OperationMode::Exclusive);
            match store.put_kv(lease, &keytext, StoredValue::Replica(spec.clone())) {
                Ok(()) => {},
                Err(_) => {
                    // unreachable: the first conditional write held the
                    // lock, and nothing has touched the locks since
                    proof {
                        assert(false);
                    }
                    return Err(SvcError::NotReady);
                },
            }
            registry.set_replica(i, spec);
            if dp_ok {
                Ok(())
            } else {
                Err(SvcError::Internal)
            }
        },
    }
}

/// What startup replay makes of a recovered replica record.
pub open spec fn spec_replay_replica(s: ReplicaSpec) -> ReplicaSpec {
    match s.operation {
        Some(o) => if o.result == Some(true) {
            s.spec_commit()
        } else {
            s.spec_clear()
        },
        None => s,
    }
}

/// Replay a recovered replica record at startup.
pub fn replay_replica_op(spec: &mut ReplicaSpec)
    ensures
        *final(spec) == spec_replay_replica(*old(spec)),
        final(spec).operation is None,
{
    let committed = match &spec.operation {
        Some(o) => o.result == Some(true),
        None => false,
    };
    if committed {
        spec.commit_op();
    } else {
        spec.clear_op();
    }
}

/// Crash-safe mutations, for the replica pipeline: wherever a crash cuts
/// the mutation short, replaying the recovered record yields the spec
/// before the operation or the spec with the operation fully applied.
pub proof fn lemma_crash_safe_replica_mutations(
    pre: ReplicaSpec,
    op: ReplicaOperation,
    ok: bool,
    at: PoolCrashPoint,
)
    requires
        pre.operation is None,
    ensures
        ({
            let persisted = match at {
                PoolCrashPoint::BeforePending => pre,
                PoolCrashPoint::AfterPendingPersist => pre.spec_start(op),
                PoolCrashPoint::AfterDataPlane => pre.spec_start(op),
                PoolCrashPoint::AfterResultPersist => pre.spec_start(op).spec_set_result(ok),
                PoolCrashPoint::AfterFinalPersist => if ok {
                    pre.spec_start(op).spec_commit()
                } else {
                    pre
                },
            };
            let replayed = spec_replay_replica(persisted);
            replayed == pre || replayed == pre.spec_start(op).spec_commit()
        }),
{
}

/// The store key text of the nexus spec with the given uuid.
pub open spec fn spec_nexus_key(id: Seq<char>) -> Seq<char> {
    "spec/nexus/"@ + id
}

/// The garbage collector's sweep: every deleting or deleted nexus spec
/// whose nexus the data plane no longer reports is dropped from the store
/// under the lease and from the registry. A write refusal means lost
/// leadership: the sweep stops with `NotReady`, having changed nothing.
pub fn collect_nexus_garbage(
    registry: &mut ResourceSpecs,
    store: &mut KeyValueStore,
    lease: Option<&LeasePair>,
    present: &Vec<String>,
) -> (r: Result<(), SvcError>)
    requires
        old(registry).wf(),
        old(store).wf(),
    ensures
        final(registry).wf(),
        final(store).wf(),
        old(store).spec_write_allowed(spec_lease_of(lease)) ==> r is Ok,
        r is Ok ==> forall|u: Seq<char>|
            crate::reconciler::spec_nexus_gone(old(registry).nexuses@, present@, u) ==> final(registry).spec_nexus_of(u) is None && final(store).spec_get(spec_nexus_key(u)) is None,
        r is Err ==> r->Err_0 is NotReady && *final(registry) == *old(registry) && *final(store)
            == *old(store),
        final(registry).pools@ == old(registry).pools@,
        final(registry).replicas@ == old(registry).replicas@,
        final(registry).volumes@ == old(registry).volumes@,
        final(store).locks@ == old(store).locks@,
{
    let picks = crate::reconciler::nexus_garbage_candidates(registry, present);
    let mut k: usize = 0;
    while k < picks.len()
        invariant
            0 <= k <= picks@.len(),
            registry.wf(),
            store.wf(),
            registry.pools@ == old(registry).pools@,
            registry.replicas@ == old(registry).replicas@,
            registry.volumes@ == old(registry).volumes@,
            store.locks@ == old(store).locks@,
            k > 0 ==> old(store).spec_write_allowed(spec_lease_of(lease)),
            k == 0 ==> *registry == *old(registry) && *store == *old(store),
            forall|w: int|
                0 <= w < k ==> registry.spec_nexus_of((#[trigger] picks@[w])@) is None
                    && store.spec_get(spec_nexus_key(picks@[w]@)) is None,
        decreases picks@.len() - k,
    {
        let key = crate::specs::store_key(
            crate::specs::StorableObjectType::NexusSpec,
            &picks[k],
        );
        match store.delete_kv(lease, &key) {
            Ok(()) => {},
            Err(_) => {
                return Err(SvcError::NotReady);
            },
        }
        registry.remove_nexus(&picks[k]);
        k = k + 1;
    }
    proof {
        if picks@.len() > 0 {
            assert(old(store).spec_write_allowed(spec_lease_of(lease)));
        }
        assert forall|u: Seq<char>|
            crate::reconciler::spec_nexus_gone(
                old(registry).nexuses@,
                present@,
                u,
            ) implies registry.spec_nexus_of(u) is None && store.spec_get(
            spec_nexus_key(u),
        ) is None by {
            let j = choose|j: int|
                0 <= j < old(registry).nexuses@.len() && (#[trigger] old(registry).nexuses@[
                    j
                ]).uuid@ == u && (old(registry).nexuses@[j].status is Deleting || old(registry).nexuses@[j].status is Deleted) && !crate::msg::spec_id_in(present@, u);
            assert(crate::msg::spec_id_in(picks@, old(registry).nexuses@[j].uuid@));
            let w = choose|w: int| 0 <= w < picks@.len() && (picks@[w])@ == u;
            assert(registry.spec_nexus_of(picks@[w]@) is None);
        }
    }
    Ok(())
}

/// Whether two create-pool requests carry the same content.
pub open spec fn spec_same_pool_request(r1: CreatePool, r2: CreatePool) -> bool {
    &&& r1.node@ == r2.node@
    &&& r1.id@ == r2.id@
    &&& r1.disks.deep_view() == r2.disks.deep_view()
    &&& r1.labels.deep_view() == r2.labels.deep_view()
}

/// Whether two create-replica requests carry the same content.
pub open spec fn spec_same_replica_request(r1: CreateReplica, r2: CreateReplica) -> bool {
    &&& r1.node@ == r2.node@
    &&& (r1.name is Some <==> r2.name is Some)
    &&& (r1.name matches Some(n1) ==> (r2.name matches Some(n2) && n1@ == n2@))
    &&& r1.uuid@ == r2.uuid@
    &&& r1.pool@ == r2.pool@
    &&& r1.size == r2.size
    &&& r1.thin == r2.thin
    &&& r1.share == r2.share
    &&& r1.managed == r2.managed
    &&& r1.owners.volume.deep_view() == r2.owners.volume.deep_view()
    &&& r1.owners.nexuses.deep_view() == r2.owners.nexuses.deep_view()
}

/// Idempotence of pool creation: the spec a successful create leaves
/// matches its request, so a repeated create of the same content finds a
/// matching spec — by `create_pool`'s contract it answers success and
/// changes nothing, while a request of different content is refused.
pub proof fn lemma_create_pool_idempotent(p: PoolSpec, r1: CreatePool, r2: CreatePool)
    requires
        p.spec_matches_request(r1),
        spec_same_pool_request(r1, r2),
    ensures
        p.spec_matches_request(r2),
{
    crate::pool::lemma_labels_eqv_of_deep(r1.labels, r2.labels);
    crate::pool::lemma_labels_eqv_trans(p.labels, r1.labels, r2.labels);
}

/// Idempotence of replica creation, as for pools.
pub proof fn lemma_create_replica_idempotent(p: ReplicaSpec, r1: CreateReplica, r2: CreateReplica)
    requires
        p.spec_matches_request(r1),
        spec_same_replica_request(r1, r2),
    ensures
        p.spec_matches_request(r2),
{
}

/// Where a pool mutation can be cut short by a crash.
#[derive(Clone, Copy, Debug, PartialEq, Eq, Structural)]
pub enum PoolCrashPoint {
    /// Before the pending operation was persisted.
    BeforePending,
    /// After the pending operation was persisted.
    AfterPendingPersist,
    /// After the data-plane call returned, before anything more was
    /// persisted.
    AfterDataPlane,
    /// After the operation's result was persisted into the record.
    AfterResultPersist,
    /// After the final commit or rollback was persisted.
    AfterFinalPersist,
}

/// The record the store holds at each stage of a pool mutation that starts
/// from `pre`, runs `op`, and whose data-plane call returns `ok`.
pub open spec fn spec_persisted_pool_at(
    pre: PoolSpec,
    op: PoolOperation,
    ok: bool,
    at: PoolCrashPoint,
) -> PoolSpec {
    match at {
        PoolCrashPoint::BeforePending => pre,
        PoolCrashPoint::AfterPendingPersist => pre.spec_start(op),
        PoolCrashPoint::AfterDataPlane => pre.spec_start(op),
        PoolCrashPoint::AfterResultPersist => pre.spec_start(op).spec_set_result(ok),
        PoolCrashPoint::AfterFinalPersist => if ok {
            pre.spec_start(op).spec_commit()
        } else {
            pre
        },
    }
}

/// What startup replay makes of a recovered record: an operation whose
/// result was recorded true is committed; anything else is cleared without
/// being applied, and the reconcilers re-drive it if still needed.
pub open spec fn spec_replay_pool(s: PoolSpec) -> PoolSpec {
    match s.operation {
        Some(o) => if o.result == Some(true) {
            s.spec_commit()
        } else {
            s.spec_clear()
        },
        None => s,
    }
}

/// Replay a recovered pool record at startup.
pub fn replay_pool_op(spec: &mut PoolSpec)
    ensures
        *final(spec) == spec_replay_pool(*old(spec)),
        final(spec).operation is None,
{
    let committed = match &spec.operation {
        Some(o) => o.result == Some(true),
        None => false,
    };
    if committed {
        spec.commit_op();
    } else {
        spec.clear_op();
    }
}

/// Crash-safe mutations: wherever a crash cuts a pool mutation short,
/// replaying the record the store then holds yields either the spec as it
/// was before the operation or the spec with the operation fully applied —
/// never an intermediate.
pub proof fn lemma_crash_safe_mutations(
    pre: PoolSpec,
    op: PoolOperation,
    ok: bool,
    at: PoolCrashPoint,
)
    requires
        pre.operation is None,
    ensures
        ({
            let replayed = spec_replay_pool(spec_persisted_pool_at(pre, op, ok, at));
            replayed == pre || replayed == pre.spec_start(op).spec_commit()
        }),
{
}

} // verus!
