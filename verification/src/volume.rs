//! Volume types that are saved to the persistent store, and the
//! transaction methods through which the executor drives a volume
//! mutation.

use crate::ids::{NexusId, NodeId, VolumeId};
use crate::msg::Protocol;
use crate::sequencer::OperationSequence;
use crate::specs::{store_key, SpecStatus, StorableObjectType};
use vstd::prelude::*;

verus! {

/// Observed status of a volume.
#[derive(Clone, Copy, Debug, PartialEq, Eq, Structural)]
pub enum VolumeStatus {
    /// Nothing is known of the volume.
    Unknown,
    /// Healthy and serving.
    Online,
    /// Serving with reduced redundancy.
    Degraded,
    /// Not serving.
    Faulted,
}

/// Status of a volume spec.
pub type VolumeSpecStatus = SpecStatus<VolumeStatus>;

/// Where a published volume is reachable: the nexus that serves it and
/// the node that hosts the nexus.
#[derive(Debug)]
pub struct VolumeTarget {
    /// The node the target nexus runs on.
    pub node: NodeId,
    /// The nexus that serves the volume.
    pub nexus: NexusId,
    /// The protocol the target is shared over.
    pub protocol: Protocol,
}

impl Clone for VolumeTarget {
    fn clone(&self) -> (r: Self)
        ensures
            r == *self,
    {
        VolumeTarget { node: self.node.clone(), nexus: self.nexus.clone(), protocol: self.protocol }
    }
}

/// Record of one volume operation in flight.
#[derive(Debug)]
pub struct VolumeOperationState {
    /// Record of the operation.
    pub operation: VolumeOperation,
    /// Result of the operation.
    pub result: Option<bool>,
}

impl Clone for VolumeOperationState {
    fn clone(&self) -> (r: Self)
        ensures
            r == *self,
    {
        VolumeOperationState { operation: self.operation.clone(), result: self.result }
    }
}

/// The volume operations the executor can drive.
#[derive(Debug)]
pub enum VolumeOperation {
    Create,
    Destroy,
    Publish(VolumeTarget),
    Unpublish,
    SetReplica(u8),
}

impl Clone for VolumeOperation {
    fn clone(&self) -> (r: Self)
        ensures
            r == *self,
    {
        match self {
            VolumeOperation::Create => VolumeOperation::Create,
            VolumeOperation::Destroy => VolumeOperation::Destroy,
            VolumeOperation::Publish(t) => VolumeOperation::Publish(t.clone()),
            VolumeOperation::Unpublish => VolumeOperation::Unpublish,
            VolumeOperation::SetReplica(n) => VolumeOperation::SetReplica(*n),
        }
    }
}

/// Desired state of a volume.
#[derive(Debug)]
pub struct VolumeSpec {
    /// Uuid of the volume.
    pub uuid: VolumeId,
    /// Size of the volume in bytes.
    pub size: u64,
    /// How many replicas the volume shall keep.
    pub num_replicas: u8,
    /// Status of the volume spec.
    pub status: VolumeSpecStatus,
    /// Where the volume is published, while it is.
    pub target: Option<VolumeTarget>,
    /// Update in progress; runtime only, never persisted.
    pub sequencer: OperationSequence,
    /// Record of the operation in progress.
    pub operation: Option<VolumeOperationState>,
}

impl VolumeSpec {
    /// Whether two volume specs carry the same persisted content:
    /// everything but the runtime-only sequencer.
    pub open spec fn spec_eqv(self, other: VolumeSpec) -> bool {
        &&& self.uuid == other.uuid
        &&& self.size == other.size
        &&& self.num_replicas == other.num_replicas
        &&& self.status == other.status
        &&& self.target == other.target
        &&& (self.operation is Some <==> other.operation is Some)
        &&& (self.operation matches Some(o) ==> other.operation == Some(o))
    }

    /// Whether a mutation is mid-flight.
    pub open spec fn spec_pending(&self) -> bool {
        self.operation is Some
    }

    /// The status after committing `op`.
    pub open spec fn spec_status_after(self, op: VolumeOperation) -> VolumeSpecStatus {
        match op {
            VolumeOperation::Create => SpecStatus::Created(VolumeStatus::Online),
            VolumeOperation::Destroy => SpecStatus::Deleted,
            _ => self.status,
        }
    }

    /// The target after committing `op`.
    pub open spec fn spec_target_after(self, op: VolumeOperation) -> Option<VolumeTarget> {
        match op {
            VolumeOperation::Publish(t) => Some(t),
            VolumeOperation::Unpublish => None,
            _ => self.target,
        }
    }

    /// The replica count after committing `op`.
    pub open spec fn spec_replicas_after(self, op: VolumeOperation) -> u8 {
        match op {
            VolumeOperation::SetReplica(n) => n,
            _ => self.num_replicas,
        }
    }

    /// Whether a mutation is mid-flight.
    pub fn pending_op(&self) -> (r: bool)
        ensures
            r == self.spec_pending(),
    {
        match &self.operation {
            Some(_) => true,
            None => false,
        }
    }

    /// Commit the pending operation: apply its effect to status, target
    /// or replica count, and clear the record.
    pub fn commit_op(&mut self)
        ensures
            old(self).operation is Some ==> {
                let op = old(self).operation->Some_0.operation;
                &&& final(self).status == old(self).spec_status_after(op)
                &&& final(self).target == old(self).spec_target_after(op)
                &&& final(self).num_replicas == old(self).spec_replicas_after(op)
            },
            old(self).operation is None ==> {
                &&& final(self).status == old(self).status
                &&& final(self).target == old(self).target
                &&& final(self).num_replicas == old(self).num_replicas
            },
            final(self).operation is None,
            final(self).uuid == old(self).uuid,
            final(self).size == old(self).size,
            final(self).sequencer == old(self).sequencer,
    {
        let op = match &self.operation {
            Some(o) => Some(o.operation.clone()),
            None => None,
        };
        match op {
            Some(VolumeOperation::Create) => {
                self.status = SpecStatus::Created(VolumeStatus::Online);
            },
            Some(VolumeOperation::Destroy) => {
                self.status = SpecStatus::Deleted;
            },
            Some(VolumeOperation::Publish(t)) => {
                self.target = Some(t);
            },
            Some(VolumeOperation::Unpublish) => {
                self.target = None;
            },
            Some(VolumeOperation::SetReplica(n)) => {
                self.num_replicas = n;
            },
            None => {},
        }
        self.operation = None;
    }

    /// Drop the record of the pending operation without applying it.
    pub fn clear_op(&mut self)
        ensures
            *final(self) == (VolumeSpec { operation: None, ..*old(self) }),
    {
        self.operation = None;
    }

    /// Attach a fresh pending operation.
    pub fn start_op(&mut self, operation: VolumeOperation)
        ensures
            *final(self) == (VolumeSpec {
                operation: Some(VolumeOperationState { operation, result: None }),
                ..*old(self)
            }),
    {
        self.operation = Some(VolumeOperationState { operation, result: None });
    }

    /// Write the data-plane call's result into the pending operation.
    pub fn set_op_result(&mut self, result: bool)
        ensures
            old(self).operation is Some ==> *final(self) == (VolumeSpec {
                operation: Some(
                    VolumeOperationState {
                        operation: old(self).operation->Some_0.operation,
                        result: Some(result),
                    },
                ),
                ..*old(self)
            }),
            old(self).operation is None ==> *final(self) == *old(self),
    {
        let op = match &self.operation {
            Some(o) => Some(o.operation.clone()),
            None => None,
        };
        match op {
            Some(operation) => {
                self.operation = Some(VolumeOperationState { operation, result: Some(result) });
            },
            None => {},
        }
    }

    /// The full store key text of this spec.
    pub fn key(&self) -> (r: String)
        ensures
            r@ == "spec/volume/"@ + self.uuid@,
    {
        store_key(StorableObjectType::VolumeSpec, &self.uuid)
    }

    /// Whether this spec names the volume with the given uuid.
    pub fn has_id(&self, uuid: &VolumeId) -> (r: bool)
        ensures
            r == (self.uuid@ == uuid@),
    {
        self.uuid == *uuid
    }
}

impl Clone for VolumeSpec {
    fn clone(&self) -> (r: Self)
        ensures
            r.uuid == self.uuid,
            r.size == self.size,
            r.num_replicas == self.num_replicas,
            r.status == self.status,
            r.target == self.target,
            r.sequencer == self.sequencer,
            (r.operation is Some <==> self.operation is Some),
            (self.operation matches Some(o) ==> r.operation == Some(o)),
    {
        let target = match &self.target {
            Some(t) => Some(t.clone()),
            None => None,
        };
        let operation = match &self.operation {
            Some(o) => Some(o.clone()),
            None => None,
        };
        let r = VolumeSpec {
            uuid: self.uuid.clone(),
            size: self.size,
            num_replicas: self.num_replicas,
            status: self.status,
            target,
            sequencer: self.sequencer.clone(),
            operation,
        };
        proof {
            assert(r.target == self.target);
        }
        r
    }
}

} // verus!
