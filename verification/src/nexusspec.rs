//! Nexus types that are saved to the persistent store, and the transaction
//! methods through which the executor and the reconcilers drive a nexus
//! mutation.

use crate::child::ChildUri;
use crate::ids::{NexusId, NodeId, ReplicaId, VolumeId};
use crate::msg::{NexusShareProtocol, NexusStatus, Protocol};
use crate::sequencer::{OperationSequence, SequenceState};
use crate::specs::{store_key, SpecStatus, StorableObjectType};
use vstd::prelude::*;

verus! {

/// Status of a nexus spec.
pub type NexusSpecStatus = SpecStatus<NexusStatus>;

/// A replica that serves as a nexus child: the replica's uuid and the URI
/// under which the nexus reaches it.
#[derive(Debug)]
pub struct ReplicaUri {
    /// Uuid of the replica.
    pub uuid: ReplicaId,
    /// URI the nexus mirrors the replica through.
    pub share_uri: ChildUri,
}

impl ReplicaUri {
    /// Build from a replica uuid and its access URI.
    pub fn new(uuid: &ReplicaId, uri: &ChildUri) -> (r: Self)
        ensures
            r.uuid@ == uuid@,
            r.share_uri@ == uri@,
    {
        ReplicaUri { uuid: uuid.clone(), share_uri: uri.clone() }
    }
}

impl Clone for ReplicaUri {
    fn clone(&self) -> (r: Self)
        ensures
            r == *self,
    {
        ReplicaUri { uuid: self.uuid.clone(), share_uri: self.share_uri.clone() }
    }
}

/// A child of a nexus spec: either a replica the control plane manages,
/// with its uuid recorded, or a bare URI it knows nothing more about.
#[derive(Debug)]
pub enum NexusChild {
    /// The child is a replica the control plane manages.
    Replica(ReplicaUri),
    /// The child is only a URI.
    Uri(ChildUri),
}

impl NexusChild {
    /// The URI through which the nexus reaches this child.
    pub open spec fn spec_uri(self) -> Seq<char> {
        match self {
            NexusChild::Replica(r) => r.share_uri@,
            NexusChild::Uri(u) => u@,
        }
    }

    /// The replica uuid, where the child is a managed replica.
    pub open spec fn spec_replica_uuid(self) -> Option<ReplicaId> {
        match self {
            NexusChild::Replica(r) => Some(r.uuid),
            NexusChild::Uri(_) => None,
        }
    }

    /// The URI through which the nexus reaches this child.
    pub fn uri(&self) -> (r: &ChildUri)
        ensures
            r@ == self.spec_uri(),
    {
        match self {
            NexusChild::Replica(r) => &r.share_uri,
            NexusChild::Uri(u) => u,
        }
    }

    /// The replica uuid, where the child is a managed replica.
    pub fn as_replica(&self) -> (r: Option<&ReplicaId>)
        ensures
            r is Some <==> self.spec_replica_uuid() is Some,
            r is Some ==> r->Some_0@ == self.spec_replica_uuid()->Some_0@,
    {
        match self {
            NexusChild::Replica(r) => Some(&r.uuid),
            NexusChild::Uri(_) => None,
        }
    }
}

impl Clone for NexusChild {
    fn clone(&self) -> (r: Self)
        ensures
            r == *self,
    {
        match self {
            NexusChild::Replica(r) => NexusChild::Replica(r.clone()),
            NexusChild::Uri(u) => NexusChild::Uri(u.clone()),
        }
    }
}

/// Request to create a nexus.
#[derive(Debug)]
pub struct CreateNexus {
    /// Id of the io-engine instance.
    pub node: NodeId,
    /// Uuid of the nexus.
    pub uuid: NexusId,
    /// Size of the nexus in bytes.
    pub size: u64,
    /// The children the nexus shall mirror.
    pub children: Vec<NexusChild>,
    /// Managed by the control plane.
    pub managed: bool,
    /// The volume that owns the nexus, if any.
    pub owner: Option<VolumeId>,
}

/// Record of one nexus operation in flight.
#[derive(Debug)]
pub struct NexusOperationState {
    /// Record of the operation.
    pub operation: NexusOperation,
    /// Result of the operation.
    pub result: Option<bool>,
}

impl Clone for NexusOperationState {
    fn clone(&self) -> (r: Self)
        ensures
            r == *self,
    {
        NexusOperationState { operation: self.operation.clone(), result: self.result }
    }
}

/// The nexus operations the executor and the reconcilers can drive.
#[derive(Debug)]
pub enum NexusOperation {
    Create,
    Destroy,
    Share(NexusShareProtocol),
    Unshare,
    AddChild(NexusChild),
    RemoveChild(ChildUri),
}

impl Clone for NexusOperation {
    fn clone(&self) -> (r: Self)
        ensures
            r == *self,
    {
        match self {
            NexusOperation::Create => NexusOperation::Create,
            NexusOperation::Destroy => NexusOperation::Destroy,
            NexusOperation::Share(p) => NexusOperation::Share(*p),
            NexusOperation::Unshare => NexusOperation::Unshare,
            NexusOperation::AddChild(c) => NexusOperation::AddChild(c.clone()),
            NexusOperation::RemoveChild(u) => NexusOperation::RemoveChild(u.clone()),
        }
    }
}

/// Desired state of a nexus.
#[derive(Debug)]
pub struct NexusSpec {
    /// Uuid of the nexus.
    pub uuid: NexusId,
    /// Id of the io-engine instance that hosts the nexus.
    pub node: NodeId,
    /// The children the nexus mirrors.
    pub children: Vec<NexusChild>,
    /// Size of the nexus in bytes.
    pub size: u64,
    /// Status of the nexus spec.
    pub status: NexusSpecStatus,
    /// Protocol the nexus is shared over.
    pub share: Protocol,
    /// Managed by the control plane.
    pub managed: bool,
    /// The volume that owns the nexus, if any.
    pub owner: Option<VolumeId>,
    /// Update in progress; runtime only, never persisted.
    pub sequencer: OperationSequence,
    /// Record of the operation in progress.
    pub operation: Option<NexusOperationState>,
}

/// What a nexus child list becomes when the child with URI `uri` is
/// removed from it.
pub open spec fn spec_children_without(children: Seq<NexusChild>, uri: Seq<char>) -> Seq<
    NexusChild,
> {
    children.filter(|c: NexusChild| c.spec_uri() != uri)
}

impl NexusSpec {
    /// Whether two nexus specs carry the same persisted content:
    /// everything but the runtime-only sequencer.
    pub open spec fn spec_eqv(self, other: NexusSpec) -> bool {
        &&& self.uuid == other.uuid
        &&& self.node == other.node
        &&& self.children@ == other.children@
        &&& self.size == other.size
        &&& self.status == other.status
        &&& self.share == other.share
        &&& self.managed == other.managed
        &&& self.owner == other.owner
        &&& (self.operation is Some <==> other.operation is Some)
        &&& (self.operation is Some ==> self.operation->Some_0 == other.operation->Some_0)
    }

    /// Whether a mutation is mid-flight.
    pub open spec fn spec_pending(&self) -> bool {
        self.operation is Some
    }

    /// Whether a volume owns this nexus.
    pub open spec fn spec_owned(&self) -> bool {
        self.owner is Some
    }

    /// Whether a volume owns this nexus.
    pub fn owned(&self) -> (r: bool)
        ensures
            r == self.spec_owned(),
    {
        match &self.owner {
            Some(_) => true,
            None => false,
        }
    }

    /// The status after committing `op`.
    pub open spec fn spec_status_after(self, op: NexusOperation) -> NexusSpecStatus {
        match op {
            NexusOperation::Create => SpecStatus::Created(NexusStatus::Online),
            NexusOperation::Destroy => SpecStatus::Deleted,
            _ => self.status,
        }
    }

    /// The share protocol after committing `op`.
    pub open spec fn spec_share_after(self, op: NexusOperation) -> Protocol {
        match op {
            NexusOperation::Share(p) => match p {
                NexusShareProtocol::Nvmf => Protocol::Nvmf,
                NexusShareProtocol::Iscsi => Protocol::Iscsi,
            },
            NexusOperation::Unshare => Protocol::Unshared,
            _ => self.share,
        }
    }

    /// The children after committing `op`.
    pub open spec fn spec_children_after(self, op: NexusOperation) -> Seq<NexusChild> {
        match op {
            NexusOperation::AddChild(c) => self.children@.push(c),
            NexusOperation::RemoveChild(u) => spec_children_without(self.children@, u@),
            _ => self.children@,
        }
    }

    /// Whether a mutation is mid-flight.
    pub fn pending_op(&self) -> (r: bool)
        ensures
            r == self.spec_pending(),
    {
        match &self.operation {
            Some(_) => true,
            None => false,
        }
    }

    /// Commit the pending operation: apply its effect to status, share
    /// protocol or child list, and clear the record.
    pub fn commit_op(&mut self)
        ensures
            old(self).operation is Some ==> {
                let op = old(self).operation->Some_0.operation;
                &&& final(self).status == old(self).spec_status_after(op)
                &&& final(self).share == old(self).spec_share_after(op)
                &&& final(self).children@ == old(self).spec_children_after(op)
            },
            old(self).operation is None ==> {
                &&& final(self).status == old(self).status
                &&& final(self).share == old(self).share
                &&& final(self).children@ == old(self).children@
            },
            final(self).operation is None,
            final(self).uuid == old(self).uuid,
            final(self).node == old(self).node,
            final(self).size == old(self).size,
            final(self).managed == old(self).managed,
            final(self).owner == old(self).owner,
            final(self).sequencer == old(self).sequencer,
    {
        let op = match &self.operation {
            Some(o) => Some(o.operation.clone()),
            None => None,
        };
        match op {
            Some(NexusOperation::Create) => {
                self.status = SpecStatus::Created(NexusStatus::Online);
            },
            Some(NexusOperation::Destroy) => {
                self.status = SpecStatus::Deleted;
            },
            Some(NexusOperation::Share(p)) => {
                self.share = match p {
                    NexusShareProtocol::Nvmf => Protocol::Nvmf,
                    NexusShareProtocol::Iscsi => Protocol::Iscsi,
                };
            },
            Some(NexusOperation::Unshare) => {
                self.share = Protocol::Unshared;
            },
            Some(NexusOperation::AddChild(c)) => {
                self.children.push(c);
            },
            Some(NexusOperation::RemoveChild(u)) => {
                remove_child_by_uri(&mut self.children, &u);
            },
            None => {},
        }
        self.operation = None;
    }

    /// Drop the record of the pending operation without applying it.
    pub fn clear_op(&mut self)
        ensures
            *final(self) == (NexusSpec { operation: None, ..*old(self) }),
    {
        self.operation = None;
    }

    /// Attach a fresh pending operation.
    pub fn start_op(&mut self, operation: NexusOperation)
        ensures
            *final(self) == (NexusSpec {
                operation: Some(NexusOperationState { operation, result: None }),
                ..*old(self)
            }),
    {
        self.operation = Some(NexusOperationState { operation, result: None });
    }

    /// Write the data-plane call's result into the pending operation.
    pub fn set_op_result(&mut self, result: bool)
        ensures
            old(self).operation is Some ==> *final(self) == (NexusSpec {
                operation: Some(
                    NexusOperationState {
                        operation: old(self).operation->Some_0.operation,
                        result: Some(result),
                    },
                ),
                ..*old(self)
            }),
            old(self).operation is None ==> *final(self) == *old(self),
    {
        let op = match &self.operation {
            Some(o) => Some(o.operation.clone()),
            None => None,
        };
        match op {
            Some(operation) => {
                self.operation = Some(NexusOperationState { operation, result: Some(result) });
            },
            None => {},
        }
    }

    /// Uuid of the nexus this spec belongs to.
    pub fn uuid(&self) -> (r: &NexusId)
        ensures
            r@ == self.uuid@,
    {
        &self.uuid
    }

    /// The full store key text of this spec.
    pub fn key(&self) -> (r: String)
        ensures
            r@ == "spec/nexus/"@ + self.uuid@,
    {
        store_key(StorableObjectType::NexusSpec, &self.uuid)
    }

    /// Whether this spec names the nexus with the given uuid.
    pub fn has_id(&self, uuid: &NexusId) -> (r: bool)
        ensures
            r == (self.uuid@ == uuid@),
    {
        self.uuid == *uuid
    }

    /// Whether some spec child carries the given URI.
    pub fn has_child_uri(&self, uri: &ChildUri) -> (r: bool)
        ensures
            r == spec_has_child_uri(self.children@, uri@),
    {
        has_child_with_uri(&self.children, uri)
    }
}

/// Whether some child in the list carries the given URI.
pub open spec fn spec_has_child_uri(children: Seq<NexusChild>, uri: Seq<char>) -> bool {
    exists|i: int| 0 <= i < children.len() && children[i].spec_uri() == uri
}

/// Whether some child in the list carries the given URI.
pub fn has_child_with_uri(children: &Vec<NexusChild>, uri: &ChildUri) -> (r: bool)
    ensures
        r == spec_has_child_uri(children@, uri@),
{
    let mut i: usize = 0;
    while i < children.len()
        invariant
            0 <= i <= children@.len(),
            forall|j: int| 0 <= j < i ==> children@[j].spec_uri() != uri@,
        decreases children@.len() - i,
    {
        if children[i].uri() == uri {
            return true;
        }
        i = i + 1;
    }
    false
}

/// Remove every child whose URI reads as `uri`, keeping the others in
/// order.
pub fn remove_child_by_uri(children: &mut Vec<NexusChild>, uri: &ChildUri)
    ensures
        final(children)@ == spec_children_without(old(children)@, uri@),
{
    let ghost pred = |c: NexusChild| c.spec_uri() != uri@;
    let mut kept: Vec<NexusChild> = Vec::new();
    let mut i: usize = 0;
    proof {
        reveal(Seq::filter);
        assert(children@.take(0int).filter(pred) =~= Seq::<NexusChild>::empty());
    }
    while i < children.len()
        invariant
            0 <= i <= children@.len(),
            pred == (|c: NexusChild| c.spec_uri() != uri@),
            kept@ == children@.take(i as int).filter(pred),
        decreases children@.len() - i,
    {
        let keep = !(children[i].uri() == uri);
        proof {
            reveal(Seq::filter);
            assert(children@.take(i as int + 1).drop_last() =~= children@.take(i as int));
            assert(children@.take(i as int + 1).last() == children@[i as int]);
        }
        if keep {
            kept.push(children[i].clone());
        }
        i = i + 1;
    }
    proof {
        assert(children@.take(children@.len() as int) =~= children@);
    }
    *children = kept;
}

impl Clone for NexusSpec {
    fn clone(&self) -> (r: Self)
        ensures
            r.spec_eqv(*self),
            r.sequencer == self.sequencer,
    {
        let children = self.children.clone();
        proof {
            assert forall|i: int| 0 <= i < self.children@.len() implies children@[i]
                == self.children@[i] by {
                assert(vstd::pervasive::cloned::<NexusChild>(self.children@[i], children@[i]));
            }
            assert(children@ =~= self.children@);
        }
        let owner = match &self.owner {
            Some(v) => Some(v.clone()),
            None => None,
        };
        let operation = match &self.operation {
            Some(o) => Some(o.clone()),
            None => None,
        };
        let r = NexusSpec {
            uuid: self.uuid.clone(),
            node: self.node.clone(),
            children,
            size: self.size,
            status: self.status,
            share: self.share,
            managed: self.managed,
            owner,
            sequencer: self.sequencer.clone(),
            operation,
        };
        proof {
            assert(r.owner == self.owner);
        }
        r
    }
}

impl NexusSpec {
    /// The spec a create request asks for, starting its life `Creating`
    /// with an idle sequencer and no pending operation.
    pub fn from_request(request: &CreateNexus) -> (r: Self)
        ensures
            r.uuid@ == request.uuid@,
            r.node@ == request.node@,
            r.children@ == request.children@,
            r.size == request.size,
            r.status is Creating,
            r.share is Unshared,
            r.managed == request.managed,
            r.owner == request.owner,
            r.operation is None,
            r.sequencer.state == SequenceState::Idle,
    {
        let children = request.children.clone();
        proof {
            assert forall|i: int| 0 <= i < request.children@.len() implies children@[i]
                == request.children@[i] by {
                assert(vstd::pervasive::cloned::<NexusChild>(
                    request.children@[i],
                    children@[i],
                ));
            }
            assert(children@ =~= request.children@);
        }
        let owner = match &request.owner {
            Some(v) => Some(v.clone()),
            None => None,
        };
        let r = NexusSpec {
            uuid: request.uuid.clone(),
            node: request.node.clone(),
            children,
            size: request.size,
            status: SpecStatus::Creating,
            share: Protocol::Unshared,
            managed: request.managed,
            owner,
            sequencer: OperationSequence::new(request.uuid.clone()),
            operation: None,
        };
        proof {
            assert(r.owner == request.owner);
        }
        r
    }
}

} // verus!
