//! The nexus-info record: persisted by the data plane, read by the
//! scheduler to decide which replicas are safe to reuse when a nexus must
//! be recreated.

use crate::ids::ReplicaId;
use vstd::prelude::*;

verus! {

/// Health of one replica child as the data plane last recorded it.
#[derive(Debug)]
pub struct NexusChildInfo {
    /// Uuid of the replica.
    pub uuid: ReplicaId,
    /// Whether the child held the latest bits when the nexus last ran.
    pub healthy: bool,
}

impl Clone for NexusChildInfo {
    fn clone(&self) -> (r: Self)
        ensures
            r == *self,
    {
        NexusChildInfo { uuid: self.uuid.clone(), healthy: self.healthy }
    }
}

/// The persisted nexus-info record.
#[derive(Debug)]
pub struct NexusInfo {
    /// Whether the nexus was shut down cleanly. When it was not, stale
    /// replicas may disagree and only one child may be reused at first.
    pub clean_shutdown: bool,
    /// Per-replica health entries.
    pub children: Vec<NexusChildInfo>,
}

impl NexusInfo {
    /// Whether no child at all is recorded healthy.
    pub open spec fn spec_no_healthy_replicas(&self) -> bool {
        forall|i: int| 0 <= i < self.children@.len() ==> !self.children@[i].healthy
    }

    /// Whether the child with the given uuid is recorded healthy.
    pub open spec fn spec_child_healthy(&self, uuid: Seq<char>) -> bool {
        exists|i: int|
            0 <= i < self.children@.len() && self.children@[i].uuid@ == uuid
                && self.children@[i].healthy
    }

    /// Whether no child at all is recorded healthy: the record then calls
    /// for manual intervention rather than a recreate.
    pub fn no_healthy_replicas(&self) -> (r: bool)
        ensures
            r == self.spec_no_healthy_replicas(),
    {
        let mut i: usize = 0;
        while i < self.children.len()
            invariant
                0 <= i <= self.children@.len(),
                forall|j: int| 0 <= j < i ==> !self.children@[j].healthy,
            decreases self.children@.len() - i,
        {
            if self.children[i].healthy {
                return false;
            }
            i = i + 1;
        }
        true
    }

    /// Whether the child with the given uuid is recorded healthy.
    pub fn child_healthy(&self, uuid: &ReplicaId) -> (r: bool)
        ensures
            r == self.spec_child_healthy(uuid@),
    {
        let mut i: usize = 0;
        while i < self.children.len()
            invariant
                0 <= i <= self.children@.len(),
                forall|j: int|
                    0 <= j < i ==> !(self.children@[j].uuid@ == uuid@ && self.children@[j].healthy),
            decreases self.children@.len() - i,
    {
            if self.children[i].uuid == *uuid && self.children[i].healthy {
                return true;
            }
            i = i + 1;
        }
        false
    }
}

impl Clone for NexusInfo {
    fn clone(&self) -> (r: Self)
        ensures
            r.clean_shutdown == self.clean_shutdown,
            r.children@ == self.children@,
    {
        let children = self.children.clone();
        proof {
            assert forall|i: int| 0 <= i < self.children@.len() implies children@[i]
                == self.children@[i] by {
                assert(vstd::pervasive::cloned::<NexusChildInfo>(
                    self.children@[i],
                    children@[i],
                ));
            }
            assert(children@ =~= self.children@);
        }
        NexusInfo { clean_shutdown: self.clean_shutdown, children }
    }
}

} // verus!
