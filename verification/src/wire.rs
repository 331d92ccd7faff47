//! The wire layer: the plain shapes replica requests and replies travel
//! in, and the validated conversions between them and the library's
//! types. Every id that crosses the wire is checked for the uuid shape;
//! every enum discriminant is checked against the known values.

use crate::errors::{ReplyError, ReplyErrorKind, ResourceKind};
use crate::ids::{is_uuid, spec_is_uuid};
use crate::msg::{CreateReplica, DestroyReplica, Filter, Protocol, Replica, ReplicaOwners,
    ReplicaShareProtocol, ReplicaStatus, ShareReplica, UnshareReplica};
use crate::replica::{ReplicaOperation, ReplicaOperationState, ReplicaSpec, ReplicaSpecStatus};
use crate::sequencer::OperationSequence;
use crate::specs::SpecStatus;
use vstd::prelude::*;

verus! {

/// A share protocol on the wire.
pub fn protocol_from_i32(src: i32) -> (r: Option<Protocol>)
    ensures
        src == 0 ==> r == Some(Protocol::Unshared),
        src == 1 ==> r == Some(Protocol::Nvmf),
        src == 2 ==> r == Some(Protocol::Iscsi),
        src == 3 ==> r == Some(Protocol::Nbd),
        (src < 0 || src > 3) ==> r is None,
{
    if src == 0 {
        Some(Protocol::Unshared)
    } else if src == 1 {
        Some(Protocol::Nvmf)
    } else if src == 2 {
        Some(Protocol::Iscsi)
    } else if src == 3 {
        Some(Protocol::Nbd)
    } else {
        None
    }
}

/// A share protocol for the wire.
pub fn protocol_to_i32(src: Protocol) -> (r: i32)
    ensures
        src is Unshared ==> r == 0,
        src is Nvmf ==> r == 1,
        src is Iscsi ==> r == 2,
        src is Nbd ==> r == 3,
{
    match src {
        Protocol::Unshared => 0,
        Protocol::Nvmf => 1,
        Protocol::Iscsi => 2,
        Protocol::Nbd => 3,
    }
}

/// A replica status on the wire.
pub fn replica_status_from_i32(src: i32) -> (r: Option<ReplicaStatus>)
    ensures
        src == 0 ==> r == Some(ReplicaStatus::Unknown),
        src == 1 ==> r == Some(ReplicaStatus::Online),
        src == 2 ==> r == Some(ReplicaStatus::Degraded),
        src == 3 ==> r == Some(ReplicaStatus::Faulted),
        (src < 0 || src > 3) ==> r is None,
{
    if src == 0 {
        Some(ReplicaStatus::Unknown)
    } else if src == 1 {
        Some(ReplicaStatus::Online)
    } else if src == 2 {
        Some(ReplicaStatus::Degraded)
    } else if src == 3 {
        Some(ReplicaStatus::Faulted)
    } else {
        None
    }
}

/// A spec lifecycle status on the wire.
pub fn spec_status_from_i32(src: i32) -> (r: Option<ReplicaSpecStatus>)
    ensures
        src == 0 ==> r == Some(ReplicaSpecStatus::Creating),
        src == 1 ==> r == Some(SpecStatus::Created(ReplicaStatus::Online)),
        src == 2 ==> r == Some(ReplicaSpecStatus::Deleting),
        src == 3 ==> r == Some(ReplicaSpecStatus::Deleted),
        (src < 0 || src > 3) ==> r is None,
{
    if src == 0 {
        Some(SpecStatus::Creating)
    } else if src == 1 {
        Some(SpecStatus::Created(ReplicaStatus::Online))
    } else if src == 2 {
        Some(SpecStatus::Deleting)
    } else if src == 3 {
        Some(SpecStatus::Deleted)
    } else {
        None
    }
}

/// The replica share protocol on the wire: the one known value.
pub fn replica_share_protocol_from_i32(src: i32) -> (r: Option<ReplicaShareProtocol>)
    ensures
        src == 1 ==> r == Some(ReplicaShareProtocol::Nvmf),
        src != 1 ==> r is None,
{
    if src == 1 {
        Some(ReplicaShareProtocol::Nvmf)
    } else {
        None
    }
}

/// Take a uuid string off the wire: it must be present and have the uuid
/// shape.
pub fn validate_uuid(
    value: Option<String>,
    resource: ResourceKind,
    source: &str,
) -> (r: Result<String, ReplyError>)
    ensures
        r is Ok <==> (value matches Some(u) && spec_is_uuid(u@)),
        r is Ok ==> (value matches Some(u) && r->Ok_0 == u),
        r is Err ==> r->Err_0.kind == ReplyErrorKind::InvalidArgument && r->Err_0.resource
            == resource,
{
    match value {
        Some(u) => {
            if is_uuid(u.as_str()) {
                Ok(u)
            } else {
                Err(
                    ReplyError::invalid_argument(
                        resource,
                        String::from_str(source),
                        String::new(),
                    ),
                )
            }
        },
        None => Err(ReplyError::missing_argument(resource, String::from_str(source))),
    }
}

/// A replica as it travels on the wire.
#[derive(Debug)]
pub struct WireReplica {
    pub node_id: String,
    pub name: String,
    pub replica_id: Option<String>,
    pub pool_id: String,
    pub thin: bool,
    pub size: u64,
    pub share: i32,
    pub uri: String,
    pub status: i32,
}

/// Decode a replica from the wire: the uuid must be present with the uuid
/// shape, and the share and status discriminants must be known.
pub fn replica_try_from(value: WireReplica) -> (r: Result<Replica, ReplyError>)
    ensures
        r is Ok <==> ((value.replica_id matches Some(u) && spec_is_uuid(u@)) && 0 <= value.share
            <= 3 && 0 <= value.status <= 3),
        r is Ok ==> {
            let rep = r->Ok_0;
            &&& rep.node == value.node_id
            &&& rep.name == value.name
            &&& value.replica_id matches Some(u) && rep.uuid == u
            &&& rep.pool == value.pool_id
            &&& rep.thin == value.thin
            &&& rep.size == value.size
            &&& rep.uri == value.uri
        },
        r is Err ==> r->Err_0.kind == ReplyErrorKind::InvalidArgument,
{
    let uuid = match validate_uuid(value.replica_id, ResourceKind::Replica, "replica.uuid") {
        Ok(u) => u,
        Err(e) => {
            return Err(e);
        },
    };
    let share = match protocol_from_i32(value.share) {
        Some(s) => s,
        None => {
            return Err(
                ReplyError::invalid_argument(
                    ResourceKind::Replica,
                    String::from_str("replica.share"),
                    String::new(),
                ),
            );
        },
    };
    let status = match replica_status_from_i32(value.status) {
        Some(s) => s,
        None => {
            return Err(
                ReplyError::invalid_argument(
                    ResourceKind::Replica,
                    String::from_str("replica.status"),
                    String::new(),
                ),
            );
        },
    };
    Ok(
        Replica {
            node: value.node_id,
            name: value.name,
            uuid,
            pool: value.pool_id,
            thin: value.thin,
            size: value.size,
            share,
            uri: value.uri,
            status,
        },
    )
}

/// Encode a replica for the wire.
pub fn replica_into_wire(replica: Replica) -> (r: WireReplica)
    ensures
        r.node_id == replica.node,
        r.name == replica.name,
        r.replica_id == Some(replica.uuid),
        r.pool_id == replica.pool,
        r.thin == replica.thin,
        r.size == replica.size,
        r.uri == replica.uri,
        r.share == (match replica.share {
            Protocol::Unshared => 0i32,
            Protocol::Nvmf => 1i32,
            Protocol::Iscsi => 2i32,
            Protocol::Nbd => 3i32,
        }),
        r.status == (match replica.status {
            ReplicaStatus::Unknown => 0i32,
            ReplicaStatus::Online => 1i32,
            ReplicaStatus::Degraded => 2i32,
            ReplicaStatus::Faulted => 3i32,
        }),
{
    let share = protocol_to_i32(replica.share);
    let status = match replica.status {
        ReplicaStatus::Unknown => 0,
        ReplicaStatus::Online => 1,
        ReplicaStatus::Degraded => 2,
        ReplicaStatus::Faulted => 3,
    };
    WireReplica {
        node_id: replica.node,
        name: replica.name,
        replica_id: Some(replica.uuid),
        pool_id: replica.pool,
        thin: replica.thin,
        size: replica.size,
        share,
        uri: replica.uri,
        status,
    }
}

/// Replica owners as they travel on the wire.
#[derive(Debug)]
pub struct WireReplicaOwners {
    pub volume: Option<String>,
    pub nexuses: Vec<String>,
}

/// Whether an owners record off the wire is valid: the volume, when
/// named, and every nexus have the uuid shape.
pub open spec fn spec_owners_valid(value: WireReplicaOwners) -> bool {
    &&& (value.volume matches Some(v) ==> spec_is_uuid(v@))
    &&& forall|i: int|
        0 <= i < value.nexuses@.len() ==> spec_is_uuid((#[trigger] value.nexuses@[i])@)
}

/// Decode replica owners from the wire: exactly the valid records decode,
/// field for field; anything else is an invalid-argument error.
pub fn replica_owners_try_from(value: WireReplicaOwners) -> (r: Result<ReplicaOwners, ReplyError>)
    ensures
        r is Ok <==> spec_owners_valid(value),
        r is Ok ==> {
            let o = r->Ok_0;
            &&& (o.volume is Some <==> value.volume is Some)
            &&& (value.volume matches Some(v) ==> o.volume == Some(v))
            &&& o.nexuses@ == value.nexuses@
        },
        r is Err ==> r->Err_0.kind == ReplyErrorKind::InvalidArgument,
{
    let volume = match value.volume {
        Some(v) => {
            if !is_uuid(v.as_str()) {
                return Err(
                    ReplyError::invalid_argument(
                        ResourceKind::ReplicaSpec,
                        String::from_str("replica_spec.owners.volume"),
                        String::new(),
                    ),
                );
            }
            Some(v)
        },
        None => None,
    };
    let mut i: usize = 0;
    while i < value.nexuses.len()
        invariant
            0 <= i <= value.nexuses@.len(),
            forall|j: int|
                0 <= j < i ==> spec_is_uuid((#[trigger] value.nexuses@[j])@),
        decreases value.nexuses@.len() - i,
    {
        if !is_uuid(value.nexuses[i].as_str()) {
            return Err(
                ReplyError::invalid_argument(
                    ResourceKind::ReplicaSpec,
                    String::from_str("replica_spec.owners.nexuses"),
                    String::new(),
                ),
            );
        }
        i = i + 1;
    }
    Ok(ReplicaOwners::new(volume, value.nexuses))
}

/// The record of a spec operation on the wire: only its result.
#[derive(Clone, Copy, Debug, PartialEq, Eq, Structural)]
pub struct WireSpecOperation {
    pub result: Option<bool>,
}

/// A replica spec as it travels on the wire.
#[derive(Debug)]
pub struct WireReplicaSpec {
    pub name: String,
    pub replica_id: Option<String>,
    pub size: u64,
    pub pool_id: String,
    pub share: i32,
    pub thin: bool,
    pub spec_status: i32,
    pub managed: bool,
    pub owners: Option<WireReplicaOwners>,
    pub operation: Option<WireSpecOperation>,
}

/// Decode a replica spec from the wire: exactly the records with a
/// uuid-shaped id, known share and status discriminants and valid owners
/// decode, field for field; anything else is an invalid-argument error.
pub fn replica_spec_try_from(value: WireReplicaSpec) -> (r: Result<ReplicaSpec, ReplyError>)
    ensures
        r is Ok <==> ((value.replica_id matches Some(u) && spec_is_uuid(u@)) && 0 <= value.share
            <= 3 && 0 <= value.spec_status <= 3 && (value.owners matches Some(o)
            && spec_owners_valid(o))),
        r is Ok ==> {
            let s = r->Ok_0;
            &&& s.name == value.name
            &&& value.replica_id matches Some(u) && s.uuid == u && spec_is_uuid(u@)
            &&& s.size == value.size
            &&& s.pool == value.pool_id
            &&& s.thin == value.thin
            &&& s.managed == value.managed
            &&& (value.share == 0 ==> s.share is Unshared)
            &&& (value.share == 1 ==> s.share is Nvmf)
            &&& (value.share == 2 ==> s.share is Iscsi)
            &&& (value.share == 3 ==> s.share is Nbd)
            &&& (value.spec_status == 0 ==> s.status is Creating)
            &&& (value.spec_status == 1 ==> s.status == ReplicaSpecStatus::Created(
                ReplicaStatus::Online,
            ))
            &&& (value.spec_status == 2 ==> s.status is Deleting)
            &&& (value.spec_status == 3 ==> s.status is Deleted)
            &&& (value.owners matches Some(o) ==> {
                &&& (s.owners.volume is Some <==> o.volume is Some)
                &&& (o.volume matches Some(v) ==> s.owners.volume == Some(v))
                &&& s.owners.nexuses@ == o.nexuses@
            })
            &&& (value.operation matches Some(op) ==> s.operation == Some(
                ReplicaOperationState { operation: ReplicaOperation::Create, result: op.result },
            ))
            &&& (value.operation is None ==> s.operation is None)
        },
        r is Err ==> r->Err_0.kind == ReplyErrorKind::InvalidArgument,
{
    let status = match spec_status_from_i32(value.spec_status) {
        Some(s) => s,
        None => {
            return Err(
                ReplyError::invalid_argument(
                    ResourceKind::ReplicaSpec,
                    String::from_str("replica_spec.status"),
                    String::new(),
                ),
            );
        },
    };
    let uuid = match validate_uuid(
        value.replica_id,
        ResourceKind::ReplicaSpec,
        "replica_spec.uuid",
    ) {
        Ok(u) => u,
        Err(e) => {
            return Err(e);
        },
    };
    let share = match protocol_from_i32(value.share) {
        Some(s) => s,
        None => {
            return Err(
                ReplyError::invalid_argument(
                    ResourceKind::ReplicaSpec,
                    String::from_str("replica_spec.share"),
                    String::new(),
                ),
            );
        },
    };
    let owners = match value.owners {
        Some(o) => match replica_owners_try_from(o) {
            Ok(o) => o,
            Err(e) => {
                return Err(e);
            },
        },
        None => {
            return Err(
                ReplyError::missing_argument(
                    ResourceKind::ReplicaSpec,
                    String::from_str("replica_spec.owners"),
                ),
            );
        },
    };
    let operation = match value.operation {
        Some(op) => Some(
            ReplicaOperationState { operation: ReplicaOperation::Create, result: op.result },
        ),
        None => None,
    };
    let sequencer = OperationSequence::new(uuid.clone());
    Ok(
        ReplicaSpec {
            name: value.name,
            uuid,
            size: value.size,
            pool: value.pool_id,
            share,
            thin: value.thin,
            status,
            managed: value.managed,
            owners,
            sequencer,
            operation,
        },
    )
}

/// A get-replicas filter as it travels on the wire.
#[derive(Debug)]
pub enum WireFilter {
    /// All replicas on one node.
    Node(String),
    /// All replicas of one pool on one node.
    NodePool(String, String),
    /// All replicas of one pool.
    Pool(String),
    /// One replica of one pool on one node.
    NodePoolReplica(String, String, String),
    /// One replica on one node.
    NodeReplica(String, String),
    /// One replica of one pool.
    PoolReplica(String, String),
    /// One replica.
    Replica(String),
    /// All replicas of one volume.
    Volume(String),
}

/// Decode a filter from the wire: every replica and volume id must have
/// the uuid shape; node and pool names pass through.
pub fn filter_try_from(filter: WireFilter) -> (r: Result<Filter, ReplyError>)
    ensures
        r is Err ==> r->Err_0.kind == ReplyErrorKind::InvalidArgument && r->Err_0.resource
            == ResourceKind::Replica,
        ({
            match filter {
                WireFilter::Node(n) => r == Result::<Filter, ReplyError>::Ok(Filter::Node(n)),
                WireFilter::NodePool(n, p) => r == Result::<Filter, ReplyError>::Ok(Filter::NodePool(n, p)),
                WireFilter::Pool(p) => r == Result::<Filter, ReplyError>::Ok(Filter::Pool(p)),
                WireFilter::NodePoolReplica(n, p, u) => if spec_is_uuid(u@) {
                    r == Result::<Filter, ReplyError>::Ok(Filter::NodePoolReplica(n, p, u))
                } else {
                    r is Err
                },
                WireFilter::NodeReplica(n, u) => if spec_is_uuid(u@) {
                    r == Result::<Filter, ReplyError>::Ok(Filter::NodeReplica(n, u))
                } else {
                    r is Err
                },
                WireFilter::PoolReplica(p, u) => if spec_is_uuid(u@) {
                    r == Result::<Filter, ReplyError>::Ok(Filter::PoolReplica(p, u))
                } else {
                    r is Err
                },
                WireFilter::Replica(u) => if spec_is_uuid(u@) {
                    r == Result::<Filter, ReplyError>::Ok(Filter::Replica(u))
                } else {
                    r is Err
                },
                WireFilter::Volume(u) => if spec_is_uuid(u@) {
                    r == Result::<Filter, ReplyError>::Ok(Filter::Volume(u))
                } else {
                    r is Err
                },
            }
        }),
{
    match filter {
        WireFilter::Node(n) => Ok(Filter::Node(n)),
        WireFilter::NodePool(n, p) => Ok(Filter::NodePool(n, p)),
        WireFilter::Pool(p) => Ok(Filter::Pool(p)),
        WireFilter::NodePoolReplica(n, p, u) => {
            if is_uuid(u.as_str()) {
                Ok(Filter::NodePoolReplica(n, p, u))
            } else {
                Err(
                    ReplyError::invalid_argument(
                        ResourceKind::Replica,
                        String::from_str("replica_filter::node_pool_replica.replica_id"),
                        String::new(),
                    ),
                )
            }
        },
        WireFilter::NodeReplica(n, u) => {
            if is_uuid(u.as_str()) {
                Ok(Filter::NodeReplica(n, u))
            } else {
                Err(
                    ReplyError::invalid_argument(
                        ResourceKind::Replica,
                        String::from_str("replica_filter::node_replica.replica_id"),
                        String::new(),
                    ),
                )
            }
        },
        WireFilter::PoolReplica(p, u) => {
            if is_uuid(u.as_str()) {
                Ok(Filter::PoolReplica(p, u))
            } else {
                Err(
                    ReplyError::invalid_argument(
                        ResourceKind::Replica,
                        String::from_str("replica_filter::pool_replica.replica_id"),
                        String::new(),
                    ),
                )
            }
        },
        WireFilter::Replica(u) => {
            if is_uuid(u.as_str()) {
                Ok(Filter::Replica(u))
            } else {
                Err(
                    ReplyError::invalid_argument(
                        ResourceKind::Replica,
                        String::from_str("replica_filter::replica.replica_id"),
                        String::new(),
                    ),
                )
            }
        },
        WireFilter::Volume(u) => {
            if is_uuid(u.as_str()) {
                Ok(Filter::Volume(u))
            } else {
                Err(
                    ReplyError::invalid_argument(
                        ResourceKind::Replica,
                        String::from_str("replica_filter::volume.volume_id"),
                        String::new(),
                    ),
                )
            }
        },
    }
}

/// A create-replica request as it travels on the wire.
#[derive(Debug)]
pub struct CreateReplicaRequest {
    pub node_id: String,
    pub pool_id: String,
    pub name: Option<String>,
    pub replica_id: Option<String>,
    pub thin: bool,
    pub size: u64,
    pub share: i32,
    pub managed: bool,
    pub owners: Option<WireReplicaOwners>,
}

/// A create-replica request whose wire fields passed validation.
#[derive(Debug)]
pub struct ValidatedCreateReplicaRequest {
    /// Uuid of the replica, checked for the uuid shape.
    pub uuid: String,
    /// The decoded share protocol.
    pub share: Protocol,
    /// The decoded owners.
    pub owners: ReplicaOwners,
    /// Id of the io-engine instance.
    pub node_id: String,
    /// Id of the pool.
    pub pool_id: String,
    /// Name of the replica, when it differs from the uuid.
    pub name: Option<String>,
    /// Thin provisioning.
    pub thin: bool,
    /// Size of the replica in bytes.
    pub size: u64,
    /// Managed by the control plane.
    pub managed: bool,
}

impl ValidatedCreateReplicaRequest {
    /// The create request the executor takes.
    pub fn into_request(self) -> (r: CreateReplica)
        ensures
            r.node == self.node_id,
            r.uuid == self.uuid,
            r.pool == self.pool_id,
            r.size == self.size,
            r.thin == self.thin,
            r.share == self.share,
            r.managed == self.managed,
    {
        CreateReplica {
            node: self.node_id,
            name: self.name,
            uuid: self.uuid,
            pool: self.pool_id,
            size: self.size,
            thin: self.thin,
            share: self.share,
            managed: self.managed,
            owners: self.owners,
        }
    }
}

/// Validate a wire create-replica request: exactly the requests with a
/// uuid-shaped id, a known share discriminant and valid owners validate,
/// every field carried through; anything else is an invalid-argument
/// error.
pub fn validate_create_replica(value: CreateReplicaRequest) -> (r: Result<
    ValidatedCreateReplicaRequest,
    ReplyError,
>)
    ensures
        r is Ok <==> ((value.replica_id matches Some(u) && spec_is_uuid(u@)) && 0 <= value.share
            <= 3 && (value.owners matches Some(o) && spec_owners_valid(o))),
        r is Err ==> r->Err_0.kind == ReplyErrorKind::InvalidArgument,
        r is Ok ==> {
            let v = r->Ok_0;
            &&& value.replica_id matches Some(u) && v.uuid == u && spec_is_uuid(u@)
            &&& v.node_id == value.node_id
            &&& v.pool_id == value.pool_id
            &&& v.name == value.name
            &&& v.size == value.size
            &&& v.thin == value.thin
            &&& v.managed == value.managed
            &&& (value.share == 0 ==> v.share is Unshared)
            &&& (value.share == 1 ==> v.share is Nvmf)
            &&& (value.share == 2 ==> v.share is Iscsi)
            &&& (value.share == 3 ==> v.share is Nbd)
            &&& (value.owners matches Some(o) ==> {
                &&& (v.owners.volume is Some <==> o.volume is Some)
                &&& (o.volume matches Some(w) ==> v.owners.volume == Some(w))
                &&& v.owners.nexuses@ == o.nexuses@
            })
        },
{
    let uuid = match validate_uuid(
        value.replica_id,
        ResourceKind::Replica,
        "create_replica_request.replica_id",
    ) {
        Ok(u) => u,
        Err(e) => {
            return Err(e);
        },
    };
    let share = match protocol_from_i32(value.share) {
        Some(s) => s,
        None => {
            return Err(
                ReplyError::invalid_argument(
                    ResourceKind::Replica,
                    String::from_str("create_replica_request.share"),
                    String::new(),
                ),
            );
        },
    };
    let owners = match value.owners {
        Some(o) => match replica_owners_try_from(o) {
            Ok(o) => o,
            Err(e) => {
                return Err(e);
            },
        },
        None => {
            return Err(
                ReplyError::missing_argument(
                    ResourceKind::ReplicaSpec,
                    String::from_str("replica_spec.owners"),
                ),
            );
        },
    };
    Ok(
        ValidatedCreateReplicaRequest {
            uuid,
            share,
            owners,
            node_id: value.node_id,
            pool_id: value.pool_id,
            name: value.name,
            thin: value.thin,
            size: value.size,
            managed: value.managed,
        },
    )
}


/// Encode a replica spec for the wire. The operation record travels as
/// its result alone, as the wire schema keeps no operation kind.
pub fn replica_spec_into_wire(spec: ReplicaSpec) -> (r: WireReplicaSpec)
    ensures
        r.name == spec.name,
        r.replica_id == Some(spec.uuid),
        r.size == spec.size,
        r.pool_id == spec.pool,
        r.thin == spec.thin,
        r.managed == spec.managed,
        r.share == (match spec.share {
            Protocol::Unshared => 0i32,
            Protocol::Nvmf => 1i32,
            Protocol::Iscsi => 2i32,
            Protocol::Nbd => 3i32,
        }),
        r.spec_status == (match spec.status {
            ReplicaSpecStatus::Creating => 0i32,
            ReplicaSpecStatus::Created(_) => 1i32,
            ReplicaSpecStatus::Deleting => 2i32,
            ReplicaSpecStatus::Deleted => 3i32,
        }),
        r.owners matches Some(o) && {
            &&& (o.volume is Some <==> spec.owners.volume is Some)
            &&& (spec.owners.volume matches Some(v) ==> o.volume == Some(v))
            &&& o.nexuses@ == spec.owners.nexuses@
        },
        (spec.operation matches Some(op) ==> r.operation == Some(
            WireSpecOperation { result: op.result },
        )),
        (spec.operation is None ==> r.operation is None),
{
    let share = protocol_to_i32(spec.share);
    let spec_status: i32 = match spec.status {
        ReplicaSpecStatus::Creating => 0,
        ReplicaSpecStatus::Created(_) => 1,
        ReplicaSpecStatus::Deleting => 2,
        ReplicaSpecStatus::Deleted => 3,
    };
    let operation = match &spec.operation {
        Some(op) => Some(WireSpecOperation { result: op.result }),
        None => None,
    };
    WireReplicaSpec {
        name: spec.name,
        replica_id: Some(spec.uuid),
        size: spec.size,
        pool_id: spec.pool,
        share,
        thin: spec.thin,
        spec_status,
        managed: spec.managed,
        owners: Some(
            WireReplicaOwners {
                volume: spec.owners.volume,
                nexuses: spec.owners.nexuses,
            },
        ),
        operation,
    }
}

/// A destroy-replica request as it travels on the wire.
#[derive(Debug)]
pub struct DestroyReplicaRequest {
    pub node_id: String,
    pub pool_id: String,
    pub name: Option<String>,
    pub replica_id: Option<String>,
    pub disowners: Option<WireReplicaOwners>,
}

/// A destroy-replica request whose wire fields passed validation.
#[derive(Debug)]
pub struct ValidatedDestroyReplicaRequest {
    /// Uuid of the replica, checked for the uuid shape.
    pub uuid: String,
    /// The decoded disowners.
    pub disowners: ReplicaOwners,
    /// Id of the io-engine instance.
    pub node_id: String,
    /// Id of the pool.
    pub pool_id: String,
    /// Name of the replica, when it differs from the uuid.
    pub name: Option<String>,
}

impl ValidatedDestroyReplicaRequest {
    /// The destroy request the executor takes.
    pub fn into_request(self) -> (r: DestroyReplica)
        ensures
            r.node == self.node_id,
            r.pool == self.pool_id,
            r.name == self.name,
            r.uuid == self.uuid,
    {
        DestroyReplica {
            node: self.node_id,
            pool: self.pool_id,
            name: self.name,
            uuid: self.uuid,
            disowners: self.disowners,
        }
    }
}

/// Validate a wire destroy-replica request: exactly the requests with a
/// uuid-shaped id and valid disowners validate, every field carried
/// through.
pub fn validate_destroy_replica(value: DestroyReplicaRequest) -> (r: Result<
    ValidatedDestroyReplicaRequest,
    ReplyError,
>)
    ensures
        r is Ok <==> ((value.replica_id matches Some(u) && spec_is_uuid(u@)) && (value.disowners
            matches Some(o) && spec_owners_valid(o))),
        r is Err ==> r->Err_0.kind == ReplyErrorKind::InvalidArgument,
        r is Ok ==> {
            let v = r->Ok_0;
            &&& value.replica_id matches Some(u) && v.uuid == u
            &&& v.node_id == value.node_id
            &&& v.pool_id == value.pool_id
            &&& v.name == value.name
            &&& (value.disowners matches Some(o) ==> {
                &&& (v.disowners.volume is Some <==> o.volume is Some)
                &&& (o.volume matches Some(w) ==> v.disowners.volume == Some(w))
                &&& v.disowners.nexuses@ == o.nexuses@
            })
        },
{
    let uuid = match validate_uuid(
        value.replica_id,
        ResourceKind::Replica,
        "destroy_replica_request.replica_id",
    ) {
        Ok(u) => u,
        Err(e) => {
            return Err(e);
        },
    };
    let disowners = match value.disowners {
        Some(o) => match replica_owners_try_from(o) {
            Ok(o) => o,
            Err(e) => {
                return Err(e);
            },
        },
        None => {
            return Err(
                ReplyError::missing_argument(
                    ResourceKind::Replica,
                    String::from_str("replica_spec.disowners"),
                ),
            );
        },
    };
    Ok(
        ValidatedDestroyReplicaRequest {
            uuid,
            disowners,
            node_id: value.node_id,
            pool_id: value.pool_id,
            name: value.name,
        },
    )
}

/// A share-replica request as it travels on the wire.
#[derive(Debug)]
pub struct ShareReplicaRequest {
    pub node_id: String,
    pub pool_id: String,
    pub name: Option<String>,
    pub replica_id: Option<String>,
    pub protocol: i32,
}

/// A share-replica request whose wire fields passed validation.
#[derive(Debug)]
pub struct ValidatedShareReplicaRequest {
    /// Uuid of the replica, checked for the uuid shape.
    pub uuid: String,
    /// The decoded share protocol.
    pub protocol: ReplicaShareProtocol,
    /// Id of the io-engine instance.
    pub node_id: String,
    /// Id of the pool.
    pub pool_id: String,
    /// Name of the replica, when it differs from the uuid.
    pub name: Option<String>,
}

impl ValidatedShareReplicaRequest {
    /// The share request the executor takes.
    pub fn into_request(self) -> (r: ShareReplica)
        ensures
            r.node == self.node_id,
            r.pool == self.pool_id,
            r.name == self.name,
            r.uuid == self.uuid,
            r.protocol == self.protocol,
    {
        ShareReplica {
            node: self.node_id,
            pool: self.pool_id,
            name: self.name,
            uuid: self.uuid,
            protocol: self.protocol,
        }
    }
}

/// Validate a wire share-replica request: exactly the requests with a
/// uuid-shaped id and the known replica share discriminant validate.
pub fn validate_share_replica(value: ShareReplicaRequest) -> (r: Result<
    ValidatedShareReplicaRequest,
    ReplyError,
>)
    ensures
        r is Ok <==> ((value.replica_id matches Some(u) && spec_is_uuid(u@)) && value.protocol
            == 1),
        r is Err ==> r->Err_0.kind == ReplyErrorKind::InvalidArgument,
        r is Ok ==> {
            let v = r->Ok_0;
            &&& value.replica_id matches Some(u) && v.uuid == u
            &&& v.node_id == value.node_id
            &&& v.pool_id == value.pool_id
            &&& v.name == value.name
            &&& v.protocol is Nvmf
        },
{
    let uuid = match validate_uuid(
        value.replica_id,
        ResourceKind::Replica,
        "share_replica_request.replica_id",
    ) {
        Ok(u) => u,
        Err(e) => {
            return Err(e);
        },
    };
    let protocol = match replica_share_protocol_from_i32(value.protocol) {
        Some(p) => p,
        None => {
            return Err(
                ReplyError::invalid_argument(
                    ResourceKind::Replica,
                    String::from_str("share_replica_request.protocol"),
                    String::new(),
                ),
            );
        },
    };
    Ok(
        ValidatedShareReplicaRequest {
            uuid,
            protocol,
            node_id: value.node_id,
            pool_id: value.pool_id,
            name: value.name,
        },
    )
}

/// An unshare-replica request as it travels on the wire.
#[derive(Debug)]
pub struct UnshareReplicaRequest {
    pub node_id: String,
    pub pool_id: String,
    pub name: Option<String>,
    pub replica_id: Option<String>,
}

/// An unshare-replica request whose wire fields passed validation.
#[derive(Debug)]
pub struct ValidatedUnshareReplicaRequest {
    /// Uuid of the replica, checked for the uuid shape.
    pub uuid: String,
    /// Id of the io-engine instance.
    pub node_id: String,
    /// Id of the pool.
    pub pool_id: String,
    /// Name of the replica, when it differs from the uuid.
    pub name: Option<String>,
}

impl ValidatedUnshareReplicaRequest {
    /// The unshare request the executor takes.
    pub fn into_request(self) -> (r: UnshareReplica)
        ensures
            r.node == self.node_id,
            r.pool == self.pool_id,
            r.name == self.name,
            r.uuid == self.uuid,
    {
        UnshareReplica {
            node: self.node_id,
            pool: self.pool_id,
            name: self.name,
            uuid: self.uuid,
        }
    }
}

/// Validate a wire unshare-replica request: exactly the requests with a
/// uuid-shaped id validate.
pub fn validate_unshare_replica(value: UnshareReplicaRequest) -> (r: Result<
    ValidatedUnshareReplicaRequest,
    ReplyError,
>)
    ensures
        r is Ok <==> (value.replica_id matches Some(u) && spec_is_uuid(u@)),
        r is Err ==> r->Err_0.kind == ReplyErrorKind::InvalidArgument,
        r is Ok ==> {
            let v = r->Ok_0;
            &&& value.replica_id matches Some(u) && v.uuid == u
            &&& v.node_id == value.node_id
            &&& v.pool_id == value.pool_id
            &&& v.name == value.name
        },
{
    let uuid = match validate_uuid(
        value.replica_id,
        ResourceKind::Replica,
        "unshare_replica_request.replica_id",
    ) {
        Ok(u) => u,
        Err(e) => {
            return Err(e);
        },
    };
    Ok(
        ValidatedUnshareReplicaRequest {
            uuid,
            node_id: value.node_id,
            pool_id: value.pool_id,
            name: value.name,
        },
    )
}

} // verus!
