//! Nexus children: the URIs a nexus mirrors, their observed state, and the
//! requests to add and remove a child.

use crate::ids::{NexusId, NodeId};
use vstd::prelude::*;

verus! {

/// URI of a nexus child device.
#[derive(Debug, Default)]
pub struct ChildUri(pub String);

impl Clone for ChildUri {
    fn clone(&self) -> (r: Self)
        ensures
            r == *self,
    {
        ChildUri(self.0.clone())
    }
}

impl View for ChildUri {
    type V = Seq<char>;

    open spec fn view(&self) -> Seq<char> {
        self.0@
    }
}

impl PartialEq for ChildUri {
    fn eq(&self, other: &ChildUri) -> (r: bool) {
        self.0 == other.0
    }
}

impl vstd::std_specs::cmp::PartialEqSpecImpl for ChildUri {
    open spec fn obeys_eq_spec() -> bool {
        true
    }

    open spec fn eq_spec(&self, other: &ChildUri) -> bool {
        self@ == other@
    }
}

/// The decoded query pairs of a URI, in order, or nothing when the text is
/// no valid URL. A function of the text alone.
pub uninterp spec fn url_query_pairs_of(s: Seq<char>) -> Option<Seq<(Seq<char>, Seq<char>)>>;

/// Relies on url::Url::parse and url::Url::query_pairs: parse the URI and
/// hand back its percent-decoded query pairs, which depend on the URI text
/// alone.
#[verifier::external_body]
fn url_query_pairs(s: &str) -> (r: Option<Vec<(String, String)>>)
    ensures
        r is Some <==> url_query_pairs_of(s@) is Some,
        r is Some ==> {
            let v = r->Some_0;
            let p = url_query_pairs_of(s@)->Some_0;
            v@.len() == p.len() && forall|i: int|
                0 <= i < p.len() ==> v@[i].0@ == p[i].0 && v@[i].1@ == p[i].1
        },
{
    match url::Url::parse(s) {
        Ok(u) => Some(
            u.query_pairs().map(|(k, v)| (k.into_owned(), v.into_owned())).collect(),
        ),
        Err(_) => None,
    }
}

/// The value of the first query pair named `key`, if any.
pub open spec fn spec_first_value_for(
    pairs: Seq<(Seq<char>, Seq<char>)>,
    key: Seq<char>,
) -> Option<Seq<char>>
    decreases pairs.len(),
{
    if pairs.len() == 0 {
        None
    } else if pairs[0].0 == key {
        Some(pairs[0].1)
    } else {
        spec_first_value_for(pairs.drop_first(), key)
    }
}

/// What `uuid_str` returns for a URI text: the first `uuid` query value of
/// a parsable URI, nothing otherwise.
pub open spec fn spec_uuid_str(s: Seq<char>) -> Option<Seq<char>> {
    match url_query_pairs_of(s) {
        Some(pairs) => spec_first_value_for(pairs, "uuid"@),
        None => None,
    }
}

impl ChildUri {
    /// Wrap a URI string.
    pub fn new(s: String) -> (r: Self)
        ensures
            r@ == s@,
    {
        ChildUri(s)
    }

    /// The URI text.
    pub fn as_string(&self) -> (r: &String)
        ensures
            r@ == self@,
    {
        &self.0
    }

    /// The io-engine bdev uuid carried in the child URI's `uuid` query
    /// parameter, if the URI parses and carries one.
    pub fn uuid_str(&self) -> (r: Option<String>)
        ensures
            r is Some <==> spec_uuid_str(self@) is Some,
            r is Some ==> r->Some_0@ == spec_uuid_str(self@)->Some_0,
    {
        let key: String = String::from_str("uuid");
        proof {
            reveal_strlit("uuid");
        }
        match url_query_pairs(self.0.as_str()) {
            Some(pairs) => {
                let ghost gpairs = url_query_pairs_of(self@)->Some_0;
                proof {
                    assert(gpairs.skip(0) =~= gpairs);
                }
                let mut i: usize = 0;
                while i < pairs.len()
                    invariant
                        0 <= i <= pairs.len(),
                        key@ == "uuid"@,
                        url_query_pairs_of(self@) is Some,
                        gpairs == url_query_pairs_of(self@)->Some_0,
                        pairs@.len() == gpairs.len(),
                        forall|j: int|
                            0 <= j < gpairs.len() ==> pairs@[j].0@ == gpairs[j].0 && pairs@[j].1@
                                == gpairs[j].1,
                        spec_first_value_for(gpairs, "uuid"@) == spec_first_value_for(
                            gpairs.skip(i as int),
                            "uuid"@,
                        ),
                    decreases pairs.len() - i,
                {
                    proof {
                        assert(gpairs.skip(i as int).len() > 0);
                        assert(gpairs.skip(i as int)[0] == gpairs[i as int]);
                        assert(gpairs.skip(i as int).drop_first() =~= gpairs.skip(i as int + 1));
                    }
                    if pairs[i].0 == key {
                        return Some(pairs[i].1.clone());
                    }
                    i = i + 1;
                }
                proof {
                    assert(gpairs.skip(pairs@.len() as int) =~= Seq::empty());
                }
                None
            },
            None => None,
        }
    }
}

/// Observed state of a nexus child.
#[derive(Clone, Copy, Debug, PartialEq, Eq, Structural)]
pub enum ChildState {
    /// Default state: nothing is known of the child.
    Unknown,
    /// Healthy and carrying the latest bits.
    Online,
    /// A rebuild is in progress, or another recoverable error.
    Degraded,
    /// Unrecoverable error: the control plane must act.
    Faulted,
}

impl ChildState {
    /// Whether the child is `Faulted`.
    pub fn faulted(&self) -> (r: bool)
        ensures
            r == (*self is Faulted),
    {
        match self {
            ChildState::Faulted => true,
            _ => false,
        }
    }

    /// Rank of a state in the health order `Faulted < Unknown < Degraded <
    /// Online`.
    pub open spec fn spec_rank(self) -> int {
        match self {
            ChildState::Faulted => 0,
            ChildState::Unknown => 1,
            ChildState::Degraded => 2,
            ChildState::Online => 3,
        }
    }
}

impl Default for ChildState {
    fn default() -> (r: Self)
        ensures
            r is Unknown,
    {
        ChildState::Unknown
    }
}

impl PartialOrd for ChildState {
    fn partial_cmp(&self, other: &ChildState) -> (r: Option<core::cmp::Ordering>) {
        let a = match self {
            ChildState::Faulted => 0u8,
            ChildState::Unknown => 1u8,
            ChildState::Degraded => 2u8,
            ChildState::Online => 3u8,
        };
        let b = match other {
            ChildState::Faulted => 0u8,
            ChildState::Unknown => 1u8,
            ChildState::Degraded => 2u8,
            ChildState::Online => 3u8,
        };
        if a < b {
            Some(core::cmp::Ordering::Less)
        } else if a == b {
            Some(core::cmp::Ordering::Equal)
        } else {
            Some(core::cmp::Ordering::Greater)
        }
    }
}

impl vstd::std_specs::cmp::PartialOrdSpecImpl for ChildState {
    open spec fn obeys_partial_cmp_spec() -> bool {
        true
    }

    open spec fn partial_cmp_spec(&self, other: &ChildState) -> Option<core::cmp::Ordering> {
        if self.spec_rank() < other.spec_rank() {
            Some(core::cmp::Ordering::Less)
        } else if self.spec_rank() == other.spec_rank() {
            Some(core::cmp::Ordering::Equal)
        } else {
            Some(core::cmp::Ordering::Greater)
        }
    }
}

/// From the wire: any unknown discriminant maps to `Unknown`.
pub fn child_state_from_i32(src: i32) -> (r: ChildState)
    ensures
        src == 1 ==> r is Online,
        src == 2 ==> r is Degraded,
        src == 3 ==> r is Faulted,
        (src != 1 && src != 2 && src != 3) ==> r is Unknown,
{
    if src == 1 {
        ChildState::Online
    } else if src == 2 {
        ChildState::Degraded
    } else if src == 3 {
        ChildState::Faulted
    } else {
        ChildState::Unknown
    }
}

/// A nexus child as the data plane reports it.
#[derive(Debug)]
pub struct Child {
    /// URI of the child device.
    pub uri: ChildUri,
    /// Observed state of the child.
    pub state: ChildState,
    /// Rebuild progress, as a percentage, while one runs.
    pub rebuild_progress: Option<u8>,
}

impl Clone for Child {
    fn clone(&self) -> (r: Self)
        ensures
            r == *self,
    {
        Child {
            uri: self.uri.clone(),
            state: self.state,
            rebuild_progress: self.rebuild_progress,
        }
    }
}

/// Request to remove a child from a nexus.
#[derive(Clone, Debug)]
pub struct RemoveNexusChild {
    /// Id of the io-engine instance.
    pub node: NodeId,
    /// Uuid of the nexus.
    pub nexus: NexusId,
    /// URI of the child device to be removed.
    pub uri: ChildUri,
}

impl RemoveNexusChild {
    /// Return a new request from borrowed parts.
    pub fn new(node: &NodeId, nexus: &NexusId, uri: &ChildUri) -> (r: Self)
        ensures
            r.node@ == node@,
            r.nexus@ == nexus@,
            r.uri@ == uri@,
    {
        RemoveNexusChild { node: node.clone(), nexus: nexus.clone(), uri: uri.clone() }
    }
}

/// Request to add a child to a nexus.
#[derive(Clone, Debug)]
pub struct AddNexusChild {
    /// Id of the io-engine instance.
    pub node: NodeId,
    /// Uuid of the nexus.
    pub nexus: NexusId,
    /// URI of the child device to be added.
    pub uri: ChildUri,
    /// Start rebuilding as soon as the child is added.
    pub auto_rebuild: bool,
}

impl From<AddNexusChild> for RemoveNexusChild {
    /// The removal that undoes an add: same node, nexus and URI.
    fn from(add: AddNexusChild) -> (r: Self) {
        RemoveNexusChild { node: add.node, nexus: add.nexus, uri: add.uri }
    }
}

impl vstd::std_specs::convert::FromSpecImpl<AddNexusChild> for RemoveNexusChild {
    open spec fn obeys_from_spec() -> bool {
        true
    }

    open spec fn from_spec(add: AddNexusChild) -> Self {
        RemoveNexusChild { node: add.node, nexus: add.nexus, uri: add.uri }
    }
}

} // verus!
