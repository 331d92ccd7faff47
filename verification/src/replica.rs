//! Replica types that are saved to the persistent store, and the
//! transaction methods through which the executor drives a replica
//! mutation.

use crate::ids::{PoolId, ReplicaId, ReplicaName};
use crate::msg::{CreateReplica, Protocol, ReplicaOwners, ReplicaShareProtocol, ReplicaStatus};
use crate::sequencer::{OperationSequence, SequenceState};
use crate::specs::{store_key, SpecStatus, StorableObjectType};
use vstd::prelude::*;

verus! {

/// Status of a replica spec.
pub type ReplicaSpecStatus = SpecStatus<ReplicaStatus>;

/// Record of one replica operation in flight.
#[derive(Clone, Copy, Debug, PartialEq, Eq, Structural)]
pub struct ReplicaOperationState {
    /// Record of the operation.
    pub operation: ReplicaOperation,
    /// Result of the operation.
    pub result: Option<bool>,
}

/// The replica operations the executor can drive.
#[derive(Clone, Copy, Debug, PartialEq, Eq, Structural)]
pub enum ReplicaOperation {
    Create,
    Destroy,
    Share(ReplicaShareProtocol),
    Unshare,
}

/// Desired state of a replica.
#[derive(Debug)]
pub struct ReplicaSpec {
    /// Name of the replica.
    pub name: ReplicaName,
    /// Uuid of the replica.
    pub uuid: ReplicaId,
    /// Size of the replica in bytes.
    pub size: u64,
    /// The pool the replica lives on.
    pub pool: PoolId,
    /// Protocol the replica is shared over.
    pub share: Protocol,
    /// Thin provisioning.
    pub thin: bool,
    /// Status of the replica.
    pub status: ReplicaSpecStatus,
    /// Managed by the control plane.
    pub managed: bool,
    /// Owners of the resource.
    pub owners: ReplicaOwners,
    /// Update in progress; runtime only, never persisted.
    pub sequencer: OperationSequence,
    /// Record of the operation in progress.
    pub operation: Option<ReplicaOperationState>,
}

impl ReplicaSpec {
    /// Whether two replica specs carry the same persisted content:
    /// everything but the runtime-only sequencer.
    pub open spec fn spec_eqv(self, other: ReplicaSpec) -> bool {
        &&& self.name == other.name
        &&& self.uuid == other.uuid
        &&& self.size == other.size
        &&& self.pool == other.pool
        &&& self.share == other.share
        &&& self.thin == other.thin
        &&& self.status == other.status
        &&& self.managed == other.managed
        &&& self.owners.spec_eqv(other.owners)
        &&& self.operation == other.operation
    }

    /// Whether a mutation is mid-flight.
    pub open spec fn spec_pending(&self) -> bool {
        self.operation is Some
    }

    /// The share protocol after committing `op`.
    pub open spec fn spec_share_after(self, op: ReplicaOperation) -> Protocol {
        match op {
            ReplicaOperation::Share(p) => match p {
                ReplicaShareProtocol::Nvmf => Protocol::Nvmf,
            },
            ReplicaOperation::Unshare => Protocol::Unshared,
            _ => self.share,
        }
    }

    /// The status after committing `op`.
    pub open spec fn spec_status_after(self, op: ReplicaOperation) -> ReplicaSpecStatus {
        match op {
            ReplicaOperation::Create => SpecStatus::Created(ReplicaStatus::Online),
            ReplicaOperation::Destroy => SpecStatus::Deleted,
            _ => self.status,
        }
    }

    /// The spec after committing the pending operation: a create marks the
    /// replica created online, a destroy marks it deleted, a share or
    /// unshare rewrites the share protocol; the operation record is
    /// cleared.
    pub open spec fn spec_commit(self) -> ReplicaSpec {
        match self.operation {
            Some(op) => ReplicaSpec {
                status: self.spec_status_after(op.operation),
                share: self.spec_share_after(op.operation),
                operation: None,
                ..self
            },
            None => ReplicaSpec { operation: None, ..self },
        }
    }

    /// The spec with the operation record cleared and nothing applied.
    pub open spec fn spec_clear(self) -> ReplicaSpec {
        ReplicaSpec { operation: None, ..self }
    }

    /// The spec with a fresh pending operation attached.
    pub open spec fn spec_start(self, operation: ReplicaOperation) -> ReplicaSpec {
        ReplicaSpec {
            operation: Some(ReplicaOperationState { operation, result: None }),
            ..self
        }
    }

    /// The spec with the data-plane call's result written into the pending
    /// operation, if one is pending.
    pub open spec fn spec_set_result(self, result: bool) -> ReplicaSpec {
        match self.operation {
            Some(op) => ReplicaSpec {
                operation: Some(
                    ReplicaOperationState { operation: op.operation, result: Some(result) },
                ),
                ..self
            },
            None => self,
        }
    }

    /// Whether a mutation is mid-flight.
    pub fn pending_op(&self) -> (r: bool)
        ensures
            r == self.spec_pending(),
    {
        match &self.operation {
            Some(_) => true,
            None => false,
        }
    }

    /// Commit the pending operation: apply its effect and clear the record.
    pub fn commit_op(&mut self)
        ensures
            *final(self) == old(self).spec_commit(),
    {
        match &self.operation {
            Some(op) => {
                match op.operation {
                    ReplicaOperation::Create => {
                        self.status = SpecStatus::Created(ReplicaStatus::Online);
                    },
                    ReplicaOperation::Destroy => {
                        self.status = SpecStatus::Deleted;
                    },
                    ReplicaOperation::Share(p) => {
                        self.share = match p {
                            ReplicaShareProtocol::Nvmf => Protocol::Nvmf,
                        };
                    },
                    ReplicaOperation::Unshare => {
                        self.share = Protocol::Unshared;
                    },
                }
            },
            None => {},
        }
        self.operation = None;
    }

    /// Drop the record of the pending operation without applying it.
    pub fn clear_op(&mut self)
        ensures
            *final(self) == old(self).spec_clear(),
    {
        self.operation = None;
    }

    /// Attach a fresh pending operation.
    pub fn start_op(&mut self, operation: ReplicaOperation)
        ensures
            *final(self) == old(self).spec_start(operation),
    {
        self.operation = Some(ReplicaOperationState { operation, result: None });
    }

    /// Write the data-plane call's result into the pending operation.
    pub fn set_op_result(&mut self, result: bool)
        ensures
            *final(self) == old(self).spec_set_result(result),
    {
        match &self.operation {
            Some(op) => {
                self.operation = Some(
                    ReplicaOperationState { operation: op.operation, result: Some(result) },
                );
            },
            None => {},
        }
    }

    /// Uuid of the replica this spec belongs to.
    pub fn uuid(&self) -> (r: &ReplicaId)
        ensures
            r@ == self.uuid@,
    {
        &self.uuid
    }

    /// The full store key text of this spec.
    pub fn key(&self) -> (r: String)
        ensures
            r@ == "spec/replica/"@ + self.uuid@,
    {
        store_key(StorableObjectType::ReplicaSpec, &self.uuid)
    }

    /// Whether this spec names the replica with the given uuid.
    pub fn has_id(&self, uuid: &ReplicaId) -> (r: bool)
        ensures
            r == (self.uuid@ == uuid@),
    {
        self.uuid == *uuid
    }

    /// Whether this spec was made from the same content as the request
    /// and has no mutation mid-flight: the fields a creator chooses must
    /// be equal, the status and the sequencer are ignored, and a pending
    /// operation makes the spec count as not equal.
    pub open spec fn spec_matches_request(&self, request: CreateReplica) -> bool {
        &&& self.operation is None
        &&& self.name@ == spec_replica_name(request)
        &&& self.uuid@ == request.uuid@
        &&& self.size == request.size
        &&& self.pool@ == request.pool@
        &&& self.share == request.share
        &&& self.thin == request.thin
        &&& self.managed == request.managed
        &&& self.owners.volume.deep_view() == request.owners.volume.deep_view()
        &&& self.owners.nexuses.deep_view() == request.owners.nexuses.deep_view()
    }

    /// Whether this spec asks for the same replica as the create request.
    /// The comparison ignores status and sequencer; a spec with a pending
    /// operation is mid-mutation and never counts as equal.
    pub fn matches_request(&self, request: &CreateReplica) -> (r: bool)
        ensures
            r == self.spec_matches_request(*request),
    {
        if self.pending_op() {
            return false;
        }
        let name_matches = match &request.name {
            Some(n) => self.name == *n,
            None => self.name == request.uuid,
        };
        if !(name_matches && self.uuid == request.uuid && self.size == request.size && self.pool
            == request.pool && self.share == request.share && self.thin == request.thin
            && self.managed == request.managed) {
            return false;
        }
        let volume_matches = match (self.owners.volume(), request.owners.volume()) {
            (Some(a), Some(b)) => *a == *b,
            (None, None) => true,
            _ => false,
        };
        if !volume_matches {
            proof {
                assert(self.owners.volume.deep_view() != request.owners.volume.deep_view());
            }
            return false;
        }
        let r = crate::pool::string_vecs_equal(self.owners.nexuses(), request.owners.nexuses());
        proof {
            if self.owners.volume is Some {
                assert(self.owners.volume.deep_view() == request.owners.volume.deep_view());
            }
        }
        r
    }

    /// The spec a create request asks for, starting its life `Creating`
    /// with an idle sequencer and no pending operation.
    pub fn from_request(request: &CreateReplica) -> (r: Self)
        ensures
            r.spec_matches_request(*request),
            r.status is Creating,
            r.operation is None,
            r.sequencer.state == SequenceState::Idle,
            r.sequencer.uuid@ == request.uuid@,
    {
        ReplicaSpec {
            name: replica_name(&request.name, &request.uuid),
            uuid: request.uuid.clone(),
            size: request.size,
            pool: request.pool.clone(),
            share: request.share,
            thin: request.thin,
            status: SpecStatus::Creating,
            managed: request.managed,
            owners: request.owners.clone(),
            sequencer: OperationSequence::new(request.uuid.clone()),
            operation: None,
        }
    }
}

/// The name a created replica gets: the requested name, or the uuid where
/// none was given.
pub open spec fn spec_replica_name(request: CreateReplica) -> Seq<char> {
    match request.name {
        Some(n) => n@,
        None => request.uuid@,
    }
}

/// The name a created replica gets.
pub fn replica_name(name: &Option<ReplicaName>, uuid: &ReplicaId) -> (r: ReplicaName)
    ensures
        name is Some ==> r@ == name->Some_0@,
        name is None ==> r@ == uuid@,
{
    match name {
        Some(n) => n.clone(),
        None => uuid.clone(),
    }
}

impl Clone for ReplicaSpec {
    fn clone(&self) -> (r: Self)
        ensures
            r.spec_eqv(*self),
            r.sequencer.state == self.sequencer.state,
            r.sequencer.uuid@ == self.sequencer.uuid@,
    {
        ReplicaSpec {
            name: self.name.clone(),
            uuid: self.uuid.clone(),
            size: self.size,
            pool: self.pool.clone(),
            share: self.share,
            thin: self.thin,
            status: self.status,
            managed: self.managed,
            owners: self.owners.clone(),
            sequencer: self.sequencer.clone(),
            operation: self.operation,
        }
    }
}

} // verus!
