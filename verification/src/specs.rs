//! The common envelope of every persisted spec: its lifecycle status and
//! the record of a mutation in flight.

use vstd::prelude::*;

verus! {

/// Lifecycle status of a spec. Transitions form a line: `Creating` to
/// `Created` to `Deleting` to `Deleted`; the `Created` sub-status may
/// change in place.
#[derive(Clone, Copy, Debug, PartialEq, Eq)]
pub enum SpecStatus<T> {
    /// The create call has not concluded yet.
    Creating,
    /// Created, with the kind's own sub-status.
    Created(T),
    /// The destroy call has not concluded yet.
    Deleting,
    /// Destroyed; the spec is a tombstone.
    Deleted,
}

impl<T> SpecStatus<T> {
    /// Whether the resource has been created.
    pub fn created(&self) -> (r: bool)
        ensures
            r == (*self is Created),
    {
        match self {
            SpecStatus::Created(_) => true,
            _ => false,
        }
    }

    /// Whether the resource is being deleted.
    pub fn deleting(&self) -> (r: bool)
        ensures
            r == (*self is Deleting),
    {
        match self {
            SpecStatus::Deleting => true,
            _ => false,
        }
    }

    /// Whether the resource has been deleted.
    pub fn deleted(&self) -> (r: bool)
        ensures
            r == (*self is Deleted),
    {
        match self {
            SpecStatus::Deleted => true,
            _ => false,
        }
    }
}

/// The kinds of records the store holds, used to build each record's key.
#[derive(Clone, Copy, Debug, PartialEq, Eq, Structural)]
pub enum StorableObjectType {
    PoolSpec,
    ReplicaSpec,
    NexusSpec,
    VolumeSpec,
    NexusInfo,
}

/// The key segment that names a record kind in the store's key layout.
pub fn key_type_segment(t: StorableObjectType) -> (r: &'static str)
    ensures
        t is PoolSpec ==> r@ == "spec/pool/"@,
        t is ReplicaSpec ==> r@ == "spec/replica/"@,
        t is NexusSpec ==> r@ == "spec/nexus/"@,
        t is VolumeSpec ==> r@ == "spec/volume/"@,
        t is NexusInfo ==> r@ == "info/nexus/"@,
{
    match t {
        StorableObjectType::PoolSpec => "spec/pool/",
        StorableObjectType::ReplicaSpec => "spec/replica/",
        StorableObjectType::NexusSpec => "spec/nexus/",
        StorableObjectType::VolumeSpec => "spec/volume/",
        StorableObjectType::NexusInfo => "info/nexus/",
    }
}

/// The store key of the record of kind `t` for the resource named `uuid`:
/// the kind's segment followed by the id.
pub fn store_key(t: StorableObjectType, uuid: &String) -> (r: String)
    ensures
        t is PoolSpec ==> r@ == "spec/pool/"@ + uuid@,
        t is ReplicaSpec ==> r@ == "spec/replica/"@ + uuid@,
        t is NexusSpec ==> r@ == "spec/nexus/"@ + uuid@,
        t is VolumeSpec ==> r@ == "spec/volume/"@ + uuid@,
        t is NexusInfo ==> r@ == "info/nexus/"@ + uuid@,
{
    let mut s = String::new();
    s.append(key_type_segment(t));
    s.append(uuid.as_str());
    s
}

} // verus!
