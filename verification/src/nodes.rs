//! The node registry: which io-engine nodes the control plane knows, how
//! alive each one is, and the observed data-plane objects its cache last
//! loaded from it.

use crate::ids::NodeId;
use crate::msg::{Nexus, NodeStatus, PoolState, Replica};
use vstd::prelude::*;

verus! {

/// One known node: its liveness and the observed objects of its last
/// cache refresh.
#[derive(Debug)]
pub struct NodeEntry {
    /// Id of the node.
    pub id: NodeId,
    /// Liveness as the cache tracks it.
    pub status: NodeStatus,
    /// When the node last answered, in the cache's clock ticks.
    pub last_seen: u64,
    /// Pools the node reported at the last refresh.
    pub pools: Vec<PoolState>,
    /// Replicas the node reported at the last refresh.
    pub replicas: Vec<Replica>,
    /// Nexuses the node reported at the last refresh.
    pub nexuses: Vec<Nexus>,
}

impl NodeEntry {
    /// A fresh entry for a node that just registered.
    pub fn new(id: NodeId, now: u64) -> (r: Self)
        ensures
            r.id@ == id@,
            r.status is Online,
            r.last_seen == now,
            r.pools@.len() == 0,
            r.replicas@.len() == 0,
            r.nexuses@.len() == 0,
    {
        NodeEntry {
            id,
            status: NodeStatus::Online,
            last_seen: now,
            pools: Vec::new(),
            replicas: Vec::new(),
            nexuses: Vec::new(),
        }
    }

    /// Whether the node currently counts as online.
    pub fn is_online(&self) -> (r: bool)
        ensures
            r == (self.status is Online),
    {
        match self.status {
            NodeStatus::Online => true,
            _ => false,
        }
    }

    /// A liveness registration arrived: the node is online again and its
    /// deadline starts anew.
    pub fn on_register(&mut self, now: u64)
        ensures
            final(self).status is Online,
            final(self).last_seen == now,
            final(self).id == old(self).id,
            final(self).pools@ == old(self).pools@,
            final(self).replicas@ == old(self).replicas@,
            final(self).nexuses@ == old(self).nexuses@,
    {
        self.status = NodeStatus::Online;
        self.last_seen = now;
    }

    /// A refresh request got no answer within the request timeout: an
    /// online node becomes `Unknown`; others keep their state.
    pub fn on_missed_response(&mut self)
        ensures
            old(self).status is Online ==> final(self).status is Unknown,
            !(old(self).status is Online) ==> final(self).status == old(self).status,
            final(self).id == old(self).id,
            final(self).last_seen == old(self).last_seen,
            final(self).pools@ == old(self).pools@,
            final(self).replicas@ == old(self).replicas@,
            final(self).nexuses@ == old(self).nexuses@,
    {
        if let NodeStatus::Online = self.status {
            self.status = NodeStatus::Unknown;
        }
    }

    /// The clock ticked: a node past the keep-alive deadline without
    /// contact goes `Offline`; within the deadline nothing changes.
    pub fn on_deadline_check(&mut self, now: u64, deadline: u64)
        ensures
            (now - old(self).last_seen > deadline && !(old(self).status is Online)) ==> final(self).status is Offline,
            (now - old(self).last_seen <= deadline || old(self).status is Online) ==> final(self).status == old(self).status,
            final(self).id == old(self).id,
            final(self).last_seen == old(self).last_seen,
            final(self).pools@ == old(self).pools@,
            final(self).replicas@ == old(self).replicas@,
            final(self).nexuses@ == old(self).nexuses@,
    {
        let overdue = now >= self.last_seen && now - self.last_seen > deadline;
        let not_online = match self.status {
            NodeStatus::Online => false,
            _ => true,
        };
        if overdue && not_online {
            self.status = NodeStatus::Offline;
        }
    }
}

/// Where the node with the given id sits in the list, if it is known.
pub fn node_index(nodes: &Vec<NodeEntry>, id: &NodeId) -> (r: Option<usize>)
    ensures
        r is Some ==> r->Some_0 < nodes@.len() && nodes@[r->Some_0 as int].id@ == id@,
        r is None ==> forall|j: int| 0 <= j < nodes@.len() ==> nodes@[j].id@ != id@,
{
    let mut i: usize = 0;
    while i < nodes.len()
        invariant
            0 <= i <= nodes@.len(),
            forall|j: int| 0 <= j < i ==> nodes@[j].id@ != id@,
        decreases nodes@.len() - i,
    {
        if nodes[i].id == *id {
            return Some(i);
        }
        i = i + 1;
    }
    None
}

/// Whether some node with the given id is known and online.
pub open spec fn spec_node_online(nodes: Seq<NodeEntry>, id: Seq<char>) -> bool {
    exists|j: int| 0 <= j < nodes.len() && nodes[j].id@ == id && nodes[j].status is Online
}

/// Whether the node with the given id is known and online.
pub fn node_online(nodes: &Vec<NodeEntry>, id: &NodeId) -> (r: bool)
    ensures
        r == spec_node_online(nodes@, id@),
{
    let mut i: usize = 0;
    while i < nodes.len()
        invariant
            0 <= i <= nodes@.len(),
            forall|j: int|
                0 <= j < i ==> !(nodes@[j].id@ == id@ && nodes@[j].status is Online),
        decreases nodes@.len() - i,
    {
        if nodes[i].id == *id && nodes[i].is_online() {
            return true;
        }
        i = i + 1;
    }
    false
}

} // verus!
