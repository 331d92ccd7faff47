//! Error taxonomy of the control plane, and its mapping onto the REST
//! front-end's status codes.
//!
//! Every mutating call answers either with a typed payload or with a single
//! `ReplyError`; a transport boundary translates the error's kind to an HTTP
//! status without looking at anything else.

use vstd::prelude::*;

verus! {

/// The kinds a reply error can carry, independent of any transport.
#[derive(Clone, Copy, Debug, PartialEq, Eq, Structural)]
pub enum ReplyErrorKind {
    WithMessage,
    DeserializeReq,
    Internal,
    Timeout,
    InvalidArgument,
    DeadlineExceeded,
    NotFound,
    AlreadyExists,
    PermissionDenied,
    ResourceExhausted,
    FailedPrecondition,
    Aborted,
    OutOfRange,
    Unimplemented,
    Unavailable,
    Unauthenticated,
    Unauthorized,
    Conflict,
    FailedPersist,
    AlreadyShared,
    NotShared,
    NotPublished,
    AlreadyPublished,
    Deleting,
    ReplicaCountAchieved,
    ReplicaChangeCount,
    ReplicaIncrease,
    VolumeNoReplicas,
    InUse,
    ReplicaCreateNumber,
}

/// The resource kind an error speaks of.
#[derive(Clone, Copy, Debug, PartialEq, Eq, Structural)]
pub enum ResourceKind {
    Unknown,
    Node,
    Pool,
    Replica,
    ReplicaSpec,
    Nexus,
    Volume,
    Child,
    Watch,
    Spec,
    State,
    JsonGrpc,
    Store,
}

/// A single error reply: a kind, the resource it concerns, a short source
/// string and free-form extra detail.
#[derive(Clone, Debug)]
pub struct ReplyError {
    pub kind: ReplyErrorKind,
    pub resource: ResourceKind,
    pub source: String,
    pub extra: String,
}

/// The error kind tag carried in a REST JSON error body.
#[derive(Clone, Copy, Debug, PartialEq, Eq, Structural)]
pub enum RestJsonErrorKind {
    Internal,
    Deserialize,
    Timeout,
    InvalidArgument,
    DeadlineExceeded,
    NotFound,
    AlreadyExists,
    PermissionDenied,
    ResourceExhausted,
    FailedPrecondition,
    Aborted,
    OutOfRange,
    Unimplemented,
    Unavailable,
    Unauthenticated,
    Unauthorized,
    Conflict,
    FailedPersist,
    AlreadyShared,
    NotShared,
    NotPublished,
    AlreadyPublished,
    Deleting,
    InUse,
}

/// The JSON body a REST error carries: details, message and a kind tag.
#[derive(Clone, Debug)]
pub struct RestJsonError {
    pub details: String,
    pub message: String,
    pub kind: RestJsonErrorKind,
}

/// A REST-level error: an HTTP status code plus the JSON error body.
#[derive(Clone, Debug)]
pub struct RestError {
    pub status: u16,
    pub error: RestJsonError,
}

/// The HTTP status code that a reply-error kind translates to.
pub open spec fn spec_status_of(kind: ReplyErrorKind) -> u16 {
    match kind {
        ReplyErrorKind::WithMessage => 500,
        ReplyErrorKind::DeserializeReq => 400,
        ReplyErrorKind::Internal => 500,
        ReplyErrorKind::Timeout => 408,
        ReplyErrorKind::InvalidArgument => 400,
        ReplyErrorKind::DeadlineExceeded => 504,
        ReplyErrorKind::NotFound => 404,
        ReplyErrorKind::AlreadyExists => 422,
        ReplyErrorKind::PermissionDenied => 401,
        ReplyErrorKind::ResourceExhausted => 507,
        ReplyErrorKind::FailedPrecondition => 412,
        ReplyErrorKind::Aborted => 503,
        ReplyErrorKind::OutOfRange => 416,
        ReplyErrorKind::Unimplemented => 501,
        ReplyErrorKind::Unavailable => 503,
        ReplyErrorKind::Unauthenticated => 401,
        ReplyErrorKind::Unauthorized => 401,
        ReplyErrorKind::Conflict => 409,
        ReplyErrorKind::FailedPersist => 507,
        ReplyErrorKind::AlreadyShared => 412,
        ReplyErrorKind::NotShared => 412,
        ReplyErrorKind::NotPublished => 412,
        ReplyErrorKind::AlreadyPublished => 412,
        ReplyErrorKind::Deleting => 409,
        ReplyErrorKind::ReplicaCountAchieved => 412,
        ReplyErrorKind::ReplicaChangeCount => 412,
        ReplyErrorKind::ReplicaIncrease => 412,
        ReplyErrorKind::VolumeNoReplicas => 412,
        ReplyErrorKind::InUse => 409,
        ReplyErrorKind::ReplicaCreateNumber => 412,
    }
}

/// The JSON kind tag that a reply-error kind translates to.
pub open spec fn spec_json_kind_of(kind: ReplyErrorKind) -> RestJsonErrorKind {
    match kind {
        ReplyErrorKind::WithMessage => RestJsonErrorKind::Internal,
        ReplyErrorKind::DeserializeReq => RestJsonErrorKind::Deserialize,
        ReplyErrorKind::Internal => RestJsonErrorKind::Internal,
        ReplyErrorKind::Timeout => RestJsonErrorKind::Timeout,
        ReplyErrorKind::InvalidArgument => RestJsonErrorKind::InvalidArgument,
        ReplyErrorKind::DeadlineExceeded => RestJsonErrorKind::DeadlineExceeded,
        ReplyErrorKind::NotFound => RestJsonErrorKind::NotFound,
        ReplyErrorKind::AlreadyExists => RestJsonErrorKind::AlreadyExists,
        ReplyErrorKind::PermissionDenied => RestJsonErrorKind::PermissionDenied,
        ReplyErrorKind::ResourceExhausted => RestJsonErrorKind::ResourceExhausted,
        ReplyErrorKind::FailedPrecondition => RestJsonErrorKind::FailedPrecondition,
        ReplyErrorKind::Aborted => RestJsonErrorKind::Aborted,
        ReplyErrorKind::OutOfRange => RestJsonErrorKind::OutOfRange,
        ReplyErrorKind::Unimplemented => RestJsonErrorKind::Unimplemented,
        ReplyErrorKind::Unavailable => RestJsonErrorKind::Unavailable,
        ReplyErrorKind::Unauthenticated => RestJsonErrorKind::Unauthenticated,
        ReplyErrorKind::Unauthorized => RestJsonErrorKind::Unauthorized,
        ReplyErrorKind::Conflict => RestJsonErrorKind::Conflict,
        ReplyErrorKind::FailedPersist => RestJsonErrorKind::FailedPersist,
        ReplyErrorKind::AlreadyShared => RestJsonErrorKind::AlreadyShared,
        ReplyErrorKind::NotShared => RestJsonErrorKind::NotShared,
        ReplyErrorKind::NotPublished => RestJsonErrorKind::NotPublished,
        ReplyErrorKind::AlreadyPublished => RestJsonErrorKind::AlreadyPublished,
        ReplyErrorKind::Deleting => RestJsonErrorKind::Deleting,
        ReplyErrorKind::ReplicaCountAchieved => RestJsonErrorKind::FailedPrecondition,
        ReplyErrorKind::ReplicaChangeCount => RestJsonErrorKind::FailedPrecondition,
        ReplyErrorKind::ReplicaIncrease => RestJsonErrorKind::FailedPrecondition,
        ReplyErrorKind::VolumeNoReplicas => RestJsonErrorKind::FailedPrecondition,
        ReplyErrorKind::InUse => RestJsonErrorKind::InUse,
        ReplyErrorKind::ReplicaCreateNumber => RestJsonErrorKind::FailedPrecondition,
    }
}

impl ReplyError {
    /// Build an invalid-argument error for the given resource.
    pub fn invalid_argument(resource: ResourceKind, source: String, extra: String) -> (r: Self)
        ensures
            r.kind == ReplyErrorKind::InvalidArgument,
            r.resource == resource,
            r.source == source,
            r.extra == extra,
    {
        ReplyError { kind: ReplyErrorKind::InvalidArgument, resource, source, extra }
    }

    /// Build a missing-argument error for the given resource.
    pub fn missing_argument(resource: ResourceKind, source: String) -> (r: Self)
        ensures
            r.kind == ReplyErrorKind::InvalidArgument,
            r.resource == resource,
            r.source == source,
            r.extra@ == Seq::<char>::empty(),
    {
        ReplyError { kind: ReplyErrorKind::InvalidArgument, resource, source, extra: String::new() }
    }
}

/// The HTTP status code for a reply-error kind.
pub fn status_code_of(kind: ReplyErrorKind) -> (r: u16)
    ensures
        r == spec_status_of(kind),
{
    match kind {
        ReplyErrorKind::WithMessage => 500,
        ReplyErrorKind::DeserializeReq => 400,
        ReplyErrorKind::Internal => 500,
        ReplyErrorKind::Timeout => 408,
        ReplyErrorKind::InvalidArgument => 400,
        ReplyErrorKind::DeadlineExceeded => 504,
        ReplyErrorKind::NotFound => 404,
        ReplyErrorKind::AlreadyExists => 422,
        ReplyErrorKind::PermissionDenied => 401,
        ReplyErrorKind::ResourceExhausted => 507,
        ReplyErrorKind::FailedPrecondition => 412,
        ReplyErrorKind::Aborted => 503,
        ReplyErrorKind::OutOfRange => 416,
        ReplyErrorKind::Unimplemented => 501,
        ReplyErrorKind::Unavailable => 503,
        ReplyErrorKind::Unauthenticated => 401,
        ReplyErrorKind::Unauthorized => 401,
        ReplyErrorKind::Conflict => 409,
        ReplyErrorKind::FailedPersist => 507,
        ReplyErrorKind::AlreadyShared => 412,
        ReplyErrorKind::NotShared => 412,
        ReplyErrorKind::NotPublished => 412,
        ReplyErrorKind::AlreadyPublished => 412,
        ReplyErrorKind::Deleting => 409,
        ReplyErrorKind::ReplicaCountAchieved => 412,
        ReplyErrorKind::ReplicaChangeCount => 412,
        ReplyErrorKind::ReplicaIncrease => 412,
        ReplyErrorKind::VolumeNoReplicas => 412,
        ReplyErrorKind::InUse => 409,
        ReplyErrorKind::ReplicaCreateNumber => 412,
    }
}

/// The JSON kind tag for a reply-error kind.
pub fn json_kind_of(kind: ReplyErrorKind) -> (r: RestJsonErrorKind)
    ensures
        r == spec_json_kind_of(kind),
{
    match kind {
        ReplyErrorKind::WithMessage => RestJsonErrorKind::Internal,
        ReplyErrorKind::DeserializeReq => RestJsonErrorKind::Deserialize,
        ReplyErrorKind::Internal => RestJsonErrorKind::Internal,
        ReplyErrorKind::Timeout => RestJsonErrorKind::Timeout,
        ReplyErrorKind::InvalidArgument => RestJsonErrorKind::InvalidArgument,
        ReplyErrorKind::DeadlineExceeded => RestJsonErrorKind::DeadlineExceeded,
        ReplyErrorKind::NotFound => RestJsonErrorKind::NotFound,
        ReplyErrorKind::AlreadyExists => RestJsonErrorKind::AlreadyExists,
        ReplyErrorKind::PermissionDenied => RestJsonErrorKind::PermissionDenied,
        ReplyErrorKind::ResourceExhausted => RestJsonErrorKind::ResourceExhausted,
        ReplyErrorKind::FailedPrecondition => RestJsonErrorKind::FailedPrecondition,
        ReplyErrorKind::Aborted => RestJsonErrorKind::Aborted,
        ReplyErrorKind::OutOfRange => RestJsonErrorKind::OutOfRange,
        ReplyErrorKind::Unimplemented => RestJsonErrorKind::Unimplemented,
        ReplyErrorKind::Unavailable => RestJsonErrorKind::Unavailable,
        ReplyErrorKind::Unauthenticated => RestJsonErrorKind::Unauthenticated,
        ReplyErrorKind::Unauthorized => RestJsonErrorKind::Unauthorized,
        ReplyErrorKind::Conflict => RestJsonErrorKind::Conflict,
        ReplyErrorKind::FailedPersist => RestJsonErrorKind::FailedPersist,
        ReplyErrorKind::AlreadyShared => RestJsonErrorKind::AlreadyShared,
        ReplyErrorKind::NotShared => RestJsonErrorKind::NotShared,
        ReplyErrorKind::NotPublished => RestJsonErrorKind::NotPublished,
        ReplyErrorKind::AlreadyPublished => RestJsonErrorKind::AlreadyPublished,
        ReplyErrorKind::Deleting => RestJsonErrorKind::Deleting,
        ReplyErrorKind::ReplicaCountAchieved => RestJsonErrorKind::FailedPrecondition,
        ReplyErrorKind::ReplicaChangeCount => RestJsonErrorKind::FailedPrecondition,
        ReplyErrorKind::ReplicaIncrease => RestJsonErrorKind::FailedPrecondition,
        ReplyErrorKind::VolumeNoReplicas => RestJsonErrorKind::FailedPrecondition,
        ReplyErrorKind::InUse => RestJsonErrorKind::InUse,
        ReplyErrorKind::ReplicaCreateNumber => RestJsonErrorKind::FailedPrecondition,
    }
}

impl From<ReplyError> for RestError {
    /// Translate a reply error to the REST boundary: the status comes from
    /// the kind alone; details and message carry the extra and source.
    fn from(src: ReplyError) -> (r: Self) {
        let status = status_code_of(src.kind);
        let kind = json_kind_of(src.kind);
        RestError {
            status,
            error: RestJsonError { details: src.extra, message: src.source, kind },
        }
    }
}

impl vstd::std_specs::convert::FromSpecImpl<ReplyError> for RestError {
    open spec fn obeys_from_spec() -> bool {
        true
    }

    open spec fn from_spec(src: ReplyError) -> Self {
        RestError {
            status: spec_status_of(src.kind),
            error: RestJsonError {
                details: src.extra,
                message: src.source,
                kind: spec_json_kind_of(src.kind),
            },
        }
    }
}

} // verus!
