//! Resource identifiers.
//!
//! Every resource is named by a string id: nodes and pools by free-form
//! names, replicas, nexuses and volumes by uuids. The uuid shape is checked
//! where a caller hands an id in over the wire.

use vstd::prelude::*;

verus! {

/// Id of an io-engine node.
pub type NodeId = String;

/// Id of a storage pool.
pub type PoolId = String;

/// Uuid of a replica.
pub type ReplicaId = String;

/// Uuid of a nexus.
pub type NexusId = String;

/// Uuid of a volume.
pub type VolumeId = String;

/// Name of a replica (distinct from its uuid).
pub type ReplicaName = String;

/// A disk device URI claimed by a pool.
pub type PoolDeviceUri = String;

/// Whether `c` is a hexadecimal digit.
pub open spec fn spec_is_hex_digit(c: char) -> bool {
    ('0' <= c && c <= '9') || ('a' <= c && c <= 'f') || ('A' <= c && c <= 'F')
}

/// Whether `s` has the textual shape of a uuid: 36 characters, hyphens at
/// positions 8, 13, 18 and 23, hexadecimal digits everywhere else.
/// Deliberately, only this canonical hyphenated form is accepted; the
/// simple, braced and urn spellings some parsers also take are refused.
pub open spec fn spec_is_uuid(s: Seq<char>) -> bool {
    &&& s.len() == 36
    &&& forall|i: int|
        0 <= i < 36 ==> (if i == 8 || i == 13 || i == 18 || i == 23 {
            s[i] == '-'
        } else {
            spec_is_hex_digit(s[i])
        })
}

/// Whether `c` is a hexadecimal digit.
pub fn is_hex_digit(c: char) -> (r: bool)
    ensures
        r == spec_is_hex_digit(c),
{
    ('0' <= c && c <= '9') || ('a' <= c && c <= 'f') || ('A' <= c && c <= 'F')
}

/// Whether `s` has the textual shape of a uuid.
pub fn is_uuid(s: &str) -> (r: bool)
    ensures
        r == spec_is_uuid(s@),
{
    let n = s.unicode_len();
    if n != 36 {
        return false;
    }
    let mut i: usize = 0;
    while i < 36
        invariant
            0 <= i <= 36,
            s@.len() == 36,
            forall|j: int|
                0 <= j < i ==> (if j == 8 || j == 13 || j == 18 || j == 23 {
                    s@[j] == '-'
                } else {
                    spec_is_hex_digit(s@[j])
                }),
        decreases 36 - i,
    {
        let c = s.get_char(i);
        if i == 8 || i == 13 || i == 18 || i == 23 {
            if c != '-' {
                return false;
            }
        } else {
            if !is_hex_digit(c) {
                return false;
            }
        }
        i = i + 1;
    }
    true
}

} // verus!
