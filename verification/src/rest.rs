//! The REST front-end's small service logic: resolving an optional
//! lookup answer into a reply, and shaping a destroy request from a
//! filter.

use crate::errors::{ReplyError, ReplyErrorKind, ResourceKind};
use crate::ids::NodeId;
use crate::msg::{DestroyNexus, Filter, Nexus};
use vstd::prelude::*;

verus! {

/// Resolve a nexus lookup for a reply: the nexus when one was found, and
/// a not-found error naming the asked-for id otherwise.
pub fn nexus(nexus_id: Option<String>, found: Option<&Nexus>) -> (r: Result<Nexus, ReplyError>)
    ensures
        r is Ok <==> found is Some,
        r is Ok ==> (found matches Some(n) && r->Ok_0.spec_eqv(*n)),
        r is Err ==> {
            let e = r->Err_0;
            &&& e.kind == ReplyErrorKind::NotFound
            &&& e.resource == ResourceKind::Nexus
            &&& e.source@ == "Requested nexus was not found"@
            &&& (nexus_id matches Some(id) ==> e.extra@ == "Nexus id : "@ + id@)
            &&& (nexus_id is None ==> e.extra@ == Seq::<char>::empty())
        },
{
    match found {
        Some(n) => Ok(n.clone()),
        None => {
            let extra = match nexus_id {
                None => String::new(),
                Some(id) => {
                    let mut s = String::from_str("Nexus id : ");
                    s.append(id.as_str());
                    s
                },
            };
            Err(
                ReplyError {
                    kind: ReplyErrorKind::NotFound,
                    resource: ResourceKind::Nexus,
                    source: String::from_str("Requested nexus was not found"),
                    extra,
                },
            )
        },
    }
}

/// Shape the destroy request a nexus-delete call issues: a node-and-nexus
/// filter carries everything; a bare nexus filter needs the owning node,
/// resolved beforehand; any other filter is invalid for the resource.
pub fn destroy_nexus_request(filter: Filter, resolved_node: Option<NodeId>) -> (r: Result<
    DestroyNexus,
    ReplyError,
>)
    ensures
        (filter matches Filter::NodeNexus(n, x) ==> (r matches Ok(d) && d.node == n && d.uuid
            == x)),
        filter matches Filter::Nexus(x) ==> (resolved_node matches Some(n) ==> (r matches Ok(d)
            && d.node == n && d.uuid == x)),
        filter matches Filter::Nexus(x) ==> (resolved_node is None ==> (r matches Err(e) && e.kind
            == ReplyErrorKind::NotFound && e.resource == ResourceKind::Nexus)),
        !(filter is NodeNexus || filter is Nexus) ==> (r matches Err(e) && e.kind
            == ReplyErrorKind::Internal && e.resource == ResourceKind::Nexus && e.source@
            == "destroy_nexus"@ && e.extra@ == "invalid filter for resource"@),
{
    match filter {
        Filter::NodeNexus(node_id, nexus_id) => Ok(DestroyNexus { node: node_id, uuid: nexus_id }),
        Filter::Nexus(nexus_id) => match resolved_node {
            Some(node_id) => Ok(DestroyNexus { node: node_id, uuid: nexus_id }),
            None => Err(
                ReplyError {
                    kind: ReplyErrorKind::NotFound,
                    resource: ResourceKind::Nexus,
                    source: String::from_str("destroy_nexus"),
                    extra: String::from_str("nexus node could not be resolved"),
                },
            ),
        },
        _ => Err(
            ReplyError {
                kind: ReplyErrorKind::Internal,
                resource: ResourceKind::Nexus,
                source: String::from_str("destroy_nexus"),
                extra: String::from_str("invalid filter for resource"),
            },
        ),
    }
}

} // verus!
