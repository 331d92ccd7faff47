//! Message-bus types: protocols, observed states and the request payloads
//! that callers and reconcilers hand to the operation executor.

use crate::child::Child;
use crate::ids::{NexusId, NodeId, PoolDeviceUri, PoolId, ReplicaId, ReplicaName, VolumeId};
use vstd::prelude::*;

verus! {

/// Share protocol of a resource.
#[derive(Clone, Copy, Debug, PartialEq, Eq, Structural)]
pub enum Protocol {
    /// Not shared by any of the variants.
    Unshared,
    /// Shared over NVMe-oF TCP.
    Nvmf,
    /// Shared over iSCSI.
    Iscsi,
    /// Shared over NBD.
    Nbd,
}

impl Protocol {
    /// Whether the protocol shares the resource at all.
    pub fn shared(&self) -> (r: bool)
        ensures
            r == (*self !is Unshared),
    {
        match self {
            Protocol::Unshared => false,
            _ => true,
        }
    }
}

impl Default for Protocol {
    fn default() -> (r: Self)
        ensures
            r is Unshared,
    {
        Protocol::Unshared
    }
}

/// The one protocol a replica can be shared over.
#[derive(Clone, Copy, Debug, PartialEq, Eq, Structural)]
pub enum ReplicaShareProtocol {
    /// Shared over NVMe-oF TCP.
    Nvmf,
}

impl From<ReplicaShareProtocol> for Protocol {
    fn from(src: ReplicaShareProtocol) -> (r: Self) {
        match src {
            ReplicaShareProtocol::Nvmf => Protocol::Nvmf,
        }
    }
}

impl vstd::std_specs::convert::FromSpecImpl<ReplicaShareProtocol> for Protocol {
    open spec fn obeys_from_spec() -> bool {
        true
    }

    open spec fn from_spec(src: ReplicaShareProtocol) -> Self {
        Protocol::Nvmf
    }
}

/// The protocols a nexus can be shared over.
#[derive(Clone, Copy, Debug, PartialEq, Eq, Structural)]
pub enum NexusShareProtocol {
    /// Shared over NVMe-oF TCP.
    Nvmf,
    /// Shared over iSCSI.
    Iscsi,
}

impl From<NexusShareProtocol> for Protocol {
    fn from(src: NexusShareProtocol) -> (r: Self) {
        match src {
            NexusShareProtocol::Nvmf => Protocol::Nvmf,
            NexusShareProtocol::Iscsi => Protocol::Iscsi,
        }
    }
}

impl vstd::std_specs::convert::FromSpecImpl<NexusShareProtocol> for Protocol {
    open spec fn obeys_from_spec() -> bool {
        true
    }

    open spec fn from_spec(src: NexusShareProtocol) -> Self {
        match src {
            NexusShareProtocol::Nvmf => Protocol::Nvmf,
            NexusShareProtocol::Iscsi => Protocol::Iscsi,
        }
    }
}

/// The nexus share protocol that a spec's share field asks for, when it
/// asks for one the nexus supports.
pub fn nexus_protocol_of(share: Protocol) -> (r: Option<NexusShareProtocol>)
    ensures
        share is Nvmf ==> r == Some(NexusShareProtocol::Nvmf),
        share is Iscsi ==> r == Some(NexusShareProtocol::Iscsi),
        (share is Unshared || share is Nbd) ==> r is None,
{
    match share {
        Protocol::Nvmf => Some(NexusShareProtocol::Nvmf),
        Protocol::Iscsi => Some(NexusShareProtocol::Iscsi),
        _ => None,
    }
}

/// Observed status of a pool.
#[derive(Clone, Copy, Debug, PartialEq, Eq, Structural)]
pub enum PoolStatus {
    /// Nothing is known of the pool.
    Unknown,
    /// Healthy and usable.
    Online,
    /// Usable but degraded.
    Degraded,
    /// Not usable.
    Faulted,
}

/// Observed status of a replica.
#[derive(Clone, Copy, Debug, PartialEq, Eq, Structural)]
pub enum ReplicaStatus {
    /// Nothing is known of the replica.
    Unknown,
    /// Healthy and usable.
    Online,
    /// Usable but degraded.
    Degraded,
    /// Not usable.
    Faulted,
}

/// Observed status of a nexus.
#[derive(Clone, Copy, Debug, PartialEq, Eq, Structural)]
pub enum NexusStatus {
    /// Nothing is known of the nexus.
    Unknown,
    /// All children online.
    Online,
    /// Some child is missing or rebuilding.
    Degraded,
    /// The nexus cannot serve I/O.
    Faulted,
}

/// Liveness of a node as the cache tracks it.
#[derive(Clone, Copy, Debug, PartialEq, Eq, Structural)]
pub enum NodeStatus {
    /// Nothing heard recently; may come back.
    Unknown,
    /// Registered and responding.
    Online,
    /// Past the keep-alive deadline.
    Offline,
}

/// Request to create a pool.
#[derive(Debug)]
pub struct CreatePool {
    /// Id of the io-engine instance.
    pub node: NodeId,
    /// Id of the pool.
    pub id: PoolId,
    /// Disk device paths or URIs claimed by the pool.
    pub disks: Vec<PoolDeviceUri>,
    /// Labels to be set on the pool.
    pub labels: Option<Vec<(String, String)>>,
}

/// Clone a vector of strings, keeping each element.
pub fn clone_string_vec(v: &Vec<String>) -> (r: Vec<String>)
    ensures
        r@ == v@,
        r.deep_view() == v.deep_view(),
{
    let cloned = v.clone();
    proof {
        assert forall|i: int| 0 <= i < v@.len() implies cloned@[i] == v@[i] by {
            assert(vstd::pervasive::cloned::<String>(v@[i], cloned@[i]));
        }
        assert(cloned@ =~= v@);
        assert(cloned.deep_view() =~= v.deep_view());
    }
    cloned
}

/// Clone an optional label list, keeping each pair.
pub fn clone_labels(v: &Option<Vec<(String, String)>>) -> (r: Option<Vec<(String, String)>>)
    ensures
        r is Some <==> *v is Some,
        r is Some ==> r->Some_0@ == v->Some_0@,
        r.deep_view() == v.deep_view(),
{
    match v {
        None => None,
        Some(l) => {
            let mut cloned: Vec<(String, String)> = Vec::new();
            let mut i: usize = 0;
            while i < l.len()
                invariant
                    0 <= i <= l@.len(),
                    cloned@.len() == i,
                    forall|j: int| 0 <= j < i ==> cloned@[j] == l@[j],
                decreases l@.len() - i,
            {
                cloned.push((l[i].0.clone(), l[i].1.clone()));
                i = i + 1;
            }
            proof {
                assert(cloned@ =~= l@);
                assert(cloned.deep_view() =~= l.deep_view());
            }
            Some(cloned)
        },
    }
}

impl CreatePool {
    /// Whether two create-pool requests carry the same content.
    pub open spec fn spec_eqv(self, other: CreatePool) -> bool {
        &&& self.node == other.node
        &&& self.id == other.id
        &&& self.disks@ == other.disks@
        &&& (self.labels is Some <==> other.labels is Some)
        &&& (self.labels is Some ==> self.labels->Some_0@ == other.labels->Some_0@)
    }
}

impl Clone for CreatePool {
    fn clone(&self) -> (r: Self)
        ensures
            r.spec_eqv(*self),
    {
        CreatePool {
            node: self.node.clone(),
            id: self.id.clone(),
            disks: clone_string_vec(&self.disks),
            labels: clone_labels(&self.labels),
        }
    }
}

/// Request to destroy a pool.
#[derive(Debug)]
pub struct DestroyPool {
    /// Id of the io-engine instance.
    pub node: NodeId,
    /// Id of the pool.
    pub id: PoolId,
}

/// A pool as the data plane reports it.
#[derive(Debug)]
pub struct PoolState {
    /// Id of the io-engine instance.
    pub node: NodeId,
    /// Id of the pool.
    pub id: PoolId,
    /// Disk device paths or URIs claimed by the pool.
    pub disks: Vec<PoolDeviceUri>,
    /// Observed status.
    pub status: PoolStatus,
    /// Capacity in bytes.
    pub capacity: u64,
    /// Used bytes.
    pub used: u64,
}

impl PoolState {
    /// Whether two observed pool states carry the same content.
    pub open spec fn spec_eqv(self, other: PoolState) -> bool {
        &&& self.node == other.node
        &&& self.id == other.id
        &&& self.disks@ == other.disks@
        &&& self.status == other.status
        &&& self.capacity == other.capacity
        &&& self.used == other.used
    }
}

impl Clone for PoolState {
    fn clone(&self) -> (r: Self)
        ensures
            r.spec_eqv(*self),
    {
        PoolState {
            node: self.node.clone(),
            id: self.id.clone(),
            disks: clone_string_vec(&self.disks),
            status: self.status,
            capacity: self.capacity,
            used: self.used,
        }
    }
}

/// Whether some id in `s` reads as the text `x`.
pub open spec fn spec_id_in(s: Seq<String>, x: Seq<char>) -> bool {
    exists|k: int| 0 <= k < s.len() && s[k]@ == x
}

/// Which other resources own a replica: at most one volume, any number of
/// nexuses. An unowned managed replica is garbage once its volume is gone.
#[derive(Debug)]
pub struct ReplicaOwners {
    /// The owning volume, if any.
    pub volume: Option<VolumeId>,
    /// The owning nexuses.
    pub nexuses: Vec<NexusId>,
}

impl ReplicaOwners {
    /// The owning volume, if any.
    pub open spec fn spec_volume(&self) -> Option<VolumeId> {
        self.volume
    }

    /// The owning nexuses.
    pub open spec fn spec_nexuses(&self) -> Seq<NexusId> {
        self.nexuses@
    }

    /// A replica with no volume and no nexus owner is orphaned.
    pub open spec fn spec_is_owned(&self) -> bool {
        self.volume is Some || self.nexuses@.len() > 0
    }

    /// Whether two owner records carry the same content.
    pub open spec fn spec_eqv(self, other: ReplicaOwners) -> bool {
        self.volume == other.volume && self.nexuses@ == other.nexuses@
    }

    /// Build from parts.
    pub fn new(volume: Option<VolumeId>, nexuses: Vec<NexusId>) -> (r: Self)
        ensures
            r.spec_volume() == volume,
            r.spec_nexuses() == nexuses@,
    {
        ReplicaOwners { volume, nexuses }
    }

    /// No owners at all.
    pub fn new_disown_all() -> (r: Self)
        ensures
            r.spec_volume() is None,
            r.spec_nexuses().len() == 0,
            !r.spec_is_owned(),
    {
        ReplicaOwners { volume: None, nexuses: Vec::new() }
    }

    /// The owning volume, if any.
    pub fn volume(&self) -> (r: &Option<VolumeId>)
        ensures
            *r == self.spec_volume(),
    {
        &self.volume
    }

    /// The owning nexuses.
    pub fn nexuses(&self) -> (r: &Vec<NexusId>)
        ensures
            r@ == self.spec_nexuses(),
    {
        &self.nexuses
    }

    /// Whether anything still owns the replica.
    pub fn is_owned(&self) -> (r: bool)
        ensures
            r == self.spec_is_owned(),
    {
        match &self.volume {
            Some(_) => true,
            None => self.nexuses.len() > 0,
        }
    }

    /// Drop the owners that `disowners` names: the volume when it matches,
    /// and every nexus named there. What stays is exactly what `disowners`
    /// does not name.
    pub fn disown(&mut self, disowners: &ReplicaOwners)
        ensures
            final(self).spec_volume() == (if old(self).spec_volume() is Some
                && disowners.spec_volume() is Some && old(self).spec_volume()->Some_0@
                == disowners.spec_volume()->Some_0@ {
                Option::<VolumeId>::None
            } else {
                old(self).spec_volume()
            }),
            forall|i: int|
                0 <= i < final(self).spec_nexuses().len() ==> spec_id_in(
                    old(self).spec_nexuses(),
                    #[trigger] final(self).spec_nexuses()[i]@,
                ) && !spec_id_in(disowners.spec_nexuses(), final(self).spec_nexuses()[i]@),
            forall|j: int|
                0 <= j < old(self).spec_nexuses().len() && !spec_id_in(
                    disowners.spec_nexuses(),
                    #[trigger] old(self).spec_nexuses()[j]@,
                ) ==> spec_id_in(final(self).spec_nexuses(), old(self).spec_nexuses()[j]@),
    {
        let matches_volume = match (&self.volume, disowners.volume()) {
            (Some(v), Some(d)) => *v == *d,
            _ => false,
        };
        if matches_volume {
            self.volume = None;
        }
        let mut kept: Vec<NexusId> = Vec::new();
        let mut i: usize = 0;
        while i < self.nexuses.len()
            invariant
                0 <= i <= self.nexuses@.len(),
                forall|k: int|
                    0 <= k < kept@.len() ==> spec_id_in(
                        self.nexuses@,
                        #[trigger] kept@[k]@,
                    ) && !spec_id_in(disowners.nexuses@, kept@[k]@),
                forall|j2: int|
                    0 <= j2 < i && !spec_id_in(
                        disowners.nexuses@,
                        #[trigger] self.nexuses@[j2]@,
                    ) ==> spec_id_in(kept@, self.nexuses@[j2]@),
            decreases self.nexuses@.len() - i,
        {
            let mut named: bool = false;
            let mut j: usize = 0;
            let ds = disowners.nexuses();
            while j < ds.len()
                invariant
                    0 <= j <= ds@.len(),
                    ds@ == disowners.nexuses@,
                    i < self.nexuses@.len(),
                    named ==> spec_id_in(ds@, self.nexuses@[i as int]@),
                    !named ==> forall|k: int|
                        0 <= k < j ==> ds@[k]@ != self.nexuses@[i as int]@,
                decreases ds@.len() - j,
            {
                if self.nexuses[i] == ds[j] {
                    named = true;
                }
                j = j + 1;
            }
            if !named {
                let ghost kept_before = kept@;
                kept.push(self.nexuses[i].clone());
                proof {
                    assert forall|k: int| 0 <= k < kept@.len() implies spec_id_in(
                        self.nexuses@,
                        #[trigger] kept@[k]@,
                    ) && !spec_id_in(disowners.nexuses@, kept@[k]@) by {
                        if k < kept_before.len() {
                            assert(kept@[k] == kept_before[k]);
                        } else {
                            assert(kept@[k]@ == self.nexuses@[i as int]@);
                        }
                    }
                    assert forall|j2: int|
                        0 <= j2 < i + 1 && !spec_id_in(
                            disowners.nexuses@,
                            #[trigger] self.nexuses@[j2]@,
                        ) implies spec_id_in(kept@, self.nexuses@[j2]@) by {
                        if j2 < i {
                            let w = choose|w: int|
                                0 <= w < kept_before.len() && kept_before[w]@
                                    == self.nexuses@[j2]@;
                            assert(kept@[w]@ == self.nexuses@[j2]@);
                        } else {
                            assert(kept@[kept@.len() - 1]@ == self.nexuses@[j2]@);
                        }
                    }
                }
            }
            i = i + 1;
        }
        self.nexuses = kept;
    }
}

impl Clone for ReplicaOwners {
    fn clone(&self) -> (r: Self)
        ensures
            r.spec_eqv(*self),
    {
        let volume = match &self.volume {
            Some(v) => Some(v.clone()),
            None => None,
        };
        ReplicaOwners { volume, nexuses: clone_string_vec(&self.nexuses) }
    }
}

impl Default for ReplicaOwners {
    fn default() -> (r: Self)
        ensures
            r.spec_volume() is None,
            r.spec_nexuses().len() == 0,
    {
        ReplicaOwners { volume: None, nexuses: Vec::new() }
    }
}

/// Request to create a replica.
#[derive(Debug)]
pub struct CreateReplica {
    /// Id of the io-engine instance.
    pub node: NodeId,
    /// Name of the replica, when it differs from the uuid.
    pub name: Option<ReplicaName>,
    /// Uuid of the replica.
    pub uuid: ReplicaId,
    /// Id of the pool.
    pub pool: PoolId,
    /// Size of the replica in bytes.
    pub size: u64,
    /// Thin provisioning.
    pub thin: bool,
    /// Protocol to expose the replica over.
    pub share: Protocol,
    /// Managed by the control plane.
    pub managed: bool,
    /// Owners of the resource.
    pub owners: ReplicaOwners,
}

impl CreateReplica {
    /// Whether two create-replica requests carry the same content.
    pub open spec fn spec_eqv(self, other: CreateReplica) -> bool {
        &&& self.node == other.node
        &&& self.name == other.name
        &&& self.uuid == other.uuid
        &&& self.pool == other.pool
        &&& self.size == other.size
        &&& self.thin == other.thin
        &&& self.share == other.share
        &&& self.managed == other.managed
        &&& self.owners.spec_eqv(other.owners)
    }
}

impl Clone for CreateReplica {
    fn clone(&self) -> (r: Self)
        ensures
            r.spec_eqv(*self),
    {
        let name = match &self.name {
            Some(n) => Some(n.clone()),
            None => None,
        };
        CreateReplica {
            node: self.node.clone(),
            name,
            uuid: self.uuid.clone(),
            pool: self.pool.clone(),
            size: self.size,
            thin: self.thin,
            share: self.share,
            managed: self.managed,
            owners: self.owners.clone(),
        }
    }
}

/// Request to destroy a replica.
#[derive(Debug)]
pub struct DestroyReplica {
    /// Id of the io-engine instance.
    pub node: NodeId,
    /// Id of the pool.
    pub pool: PoolId,
    /// Name of the replica.
    pub name: Option<ReplicaName>,
    /// Uuid of the replica.
    pub uuid: ReplicaId,
    /// Which owners release the replica with this destroy.
    pub disowners: ReplicaOwners,
}

/// Request to share a replica.
#[derive(Debug)]
pub struct ShareReplica {
    /// Id of the io-engine instance.
    pub node: NodeId,
    /// Id of the pool.
    pub pool: PoolId,
    /// Name of the replica.
    pub name: Option<ReplicaName>,
    /// Uuid of the replica.
    pub uuid: ReplicaId,
    /// Protocol to share over.
    pub protocol: ReplicaShareProtocol,
}

/// Request to unshare a replica.
#[derive(Debug)]
pub struct UnshareReplica {
    /// Id of the io-engine instance.
    pub node: NodeId,
    /// Id of the pool.
    pub pool: PoolId,
    /// Name of the replica.
    pub name: Option<ReplicaName>,
    /// Uuid of the replica.
    pub uuid: ReplicaId,
}

/// A replica as the data plane reports it.
#[derive(Debug)]
pub struct Replica {
    /// Id of the io-engine instance.
    pub node: NodeId,
    /// Name of the replica.
    pub name: ReplicaName,
    /// Uuid of the replica.
    pub uuid: ReplicaId,
    /// Id of the pool.
    pub pool: PoolId,
    /// Thin provisioning.
    pub thin: bool,
    /// Size in bytes.
    pub size: u64,
    /// Protocol the replica is shared over.
    pub share: Protocol,
    /// URI under which the replica is reachable.
    pub uri: String,
    /// Observed status.
    pub status: ReplicaStatus,
}

impl Clone for Replica {
    fn clone(&self) -> (r: Self)
        ensures
            r == *self,
    {
        Replica {
            node: self.node.clone(),
            name: self.name.clone(),
            uuid: self.uuid.clone(),
            pool: self.pool.clone(),
            thin: self.thin,
            size: self.size,
            share: self.share,
            uri: self.uri.clone(),
            status: self.status,
        }
    }
}

/// A nexus as the data plane reports it.
#[derive(Debug)]
pub struct Nexus {
    /// Id of the io-engine instance.
    pub node: NodeId,
    /// Uuid of the nexus.
    pub uuid: NexusId,
    /// Size in bytes.
    pub size: u64,
    /// Observed status.
    pub status: NexusStatus,
    /// Observed children.
    pub children: Vec<Child>,
    /// Device URI the nexus is reachable under.
    pub device_uri: String,
    /// Number of rebuilds in progress.
    pub rebuilds: u32,
    /// Protocol the nexus is shared over.
    pub share: Protocol,
}

impl Nexus {
    /// Whether two observed nexus states carry the same content.
    pub open spec fn spec_eqv(self, other: Nexus) -> bool {
        &&& self.node == other.node
        &&& self.uuid == other.uuid
        &&& self.size == other.size
        &&& self.status == other.status
        &&& self.children@ == other.children@
        &&& self.device_uri == other.device_uri
        &&& self.rebuilds == other.rebuilds
        &&& self.share == other.share
    }
}

impl Clone for Nexus {
    fn clone(&self) -> (r: Self)
        ensures
            r.spec_eqv(*self),
    {
        let children = self.children.clone();
        proof {
            assert forall|i: int| 0 <= i < self.children@.len() implies children@[i]
                == self.children@[i] by {
                assert(vstd::pervasive::cloned::<Child>(self.children@[i], children@[i]));
            }
            assert(children@ =~= self.children@);
        }
        Nexus {
            node: self.node.clone(),
            uuid: self.uuid.clone(),
            size: self.size,
            status: self.status,
            children,
            device_uri: self.device_uri.clone(),
            rebuilds: self.rebuilds,
            share: self.share,
        }
    }
}

/// Request to destroy a nexus.
#[derive(Debug)]
pub struct DestroyNexus {
    /// Id of the io-engine instance.
    pub node: NodeId,
    /// Uuid of the nexus.
    pub uuid: NexusId,
}

/// Request to share a nexus.
#[derive(Debug)]
pub struct ShareNexus {
    /// Id of the io-engine instance.
    pub node: NodeId,
    /// Uuid of the nexus.
    pub uuid: NexusId,
    /// Encryption key, if any.
    pub key: Option<String>,
    /// Protocol to share over.
    pub protocol: NexusShareProtocol,
}

/// Request to unshare a nexus.
#[derive(Debug)]
pub struct UnshareNexus {
    /// Id of the io-engine instance.
    pub node: NodeId,
    /// Uuid of the nexus.
    pub uuid: NexusId,
}

impl From<&Nexus> for UnshareNexus {
    /// The unshare request aimed at an observed nexus.
    fn from(state: &Nexus) -> (r: Self) {
        UnshareNexus { node: state.node.clone(), uuid: state.uuid.clone() }
    }
}

impl vstd::std_specs::convert::FromSpecImpl<&Nexus> for UnshareNexus {
    open spec fn obeys_from_spec() -> bool {
        true
    }

    open spec fn from_spec(state: &Nexus) -> Self {
        UnshareNexus { node: state.node, uuid: state.uuid }
    }
}

/// A filter naming which resources a get request asks for.
#[derive(Debug)]
pub enum Filter {
    /// All resources of the service's kind.
    All,
    /// All on one node.
    Node(NodeId),
    /// One pool on one node.
    NodePool(NodeId, PoolId),
    /// One pool.
    Pool(PoolId),
    /// One replica of one pool on one node.
    NodePoolReplica(NodeId, PoolId, ReplicaId),
    /// One replica on one node.
    NodeReplica(NodeId, ReplicaId),
    /// One replica of one pool.
    PoolReplica(PoolId, ReplicaId),
    /// One replica.
    Replica(ReplicaId),
    /// All of one volume.
    Volume(VolumeId),
    /// One nexus on one node.
    NodeNexus(NodeId, NexusId),
    /// One nexus.
    Nexus(NexusId),
}

} // verus!
