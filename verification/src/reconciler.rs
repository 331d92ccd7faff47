//! The nexus reconcilers: periodic tasks that narrow the gap between a
//! nexus spec and the observed nexus, one corrective sub-step at a time.
//! Each sub-step is a decision applied to the model of the data plane: the
//! observed state a successful corrective call leaves behind.

use crate::child::{Child, ChildUri};
use crate::msg::{Nexus, NexusStatus, Protocol, Replica};
use crate::nexus_info::NexusInfo;
use crate::nexusspec::{spec_has_child_uri, NexusChild, NexusSpec};
use crate::nodes::{node_online, spec_node_online, NodeEntry};
use crate::registry::ResourceSpecs;
use crate::scheduling::{get_healthy_nexus_children, spec_candidate_ok, spec_info_of,
    HealthyChildItems};
use vstd::prelude::*;

verus! {

/// What one poll of a reconciler reports.
#[derive(Clone, Copy, Debug, PartialEq, Eq, Structural)]
pub enum PollerState {
    /// Nothing left to do this tick.
    Idle,
    /// Work was deferred; poll again next tick.
    Busy,
}

/// The result of a reconciler poll: a state, or the error it ran into.
pub type PollResult = Result<PollerState, crate::executor::SvcError>;

/// The tick counter that paces a reconciler: it fires once every `period`
/// polls.
#[derive(Clone, Copy, Debug, PartialEq, Eq, Structural)]
pub struct PollTimer {
    /// Polls per firing.
    pub period: u32,
    /// Polls left until the next firing.
    pub counter: u32,
}

impl PollTimer {
    /// A timer that fires every `period` polls, the first time at once.
    pub fn from(period: u32) -> (r: Self)
        ensures
            r.period == period,
            r.counter == 0,
    {
        PollTimer { period, counter: 0 }
    }

    /// Count one poll; report whether the timer fires on this one.
    pub fn poll(&mut self) -> (fired: bool)
        ensures
            fired == (old(self).counter == 0),
            fired ==> final(self).counter == (if old(self).period > 0 {
                (old(self).period - 1) as u32
            } else {
                0u32
            }),
            !fired ==> final(self).counter == old(self).counter - 1,
            final(self).period == old(self).period,
    {
        if self.counter == 0 {
            if self.period > 0 {
                self.counter = self.period - 1;
            }
            true
        } else {
            self.counter = self.counter - 1;
            false
        }
    }
}

/// Whether some observed child carries the given URI.
pub open spec fn spec_observed_has_uri(children: Seq<Child>, uri: Seq<char>) -> bool {
    exists|i: int| 0 <= i < children.len() && children[i].uri@ == uri
}

/// Whether some observed child carries the given URI in the `Faulted`
/// state.
pub open spec fn spec_observed_faulted(children: Seq<Child>, uri: Seq<char>) -> bool {
    exists|i: int| 0 <= i < children.len() && children[i].uri@ == uri && children[i].state
        is Faulted
}

/// Whether some observed child carries the given URI.
pub fn observed_has_uri(children: &Vec<Child>, uri: &ChildUri) -> (r: bool)
    ensures
        r == spec_observed_has_uri(children@, uri@),
{
    let mut i: usize = 0;
    while i < children.len()
        invariant
            0 <= i <= children@.len(),
            forall|j: int| 0 <= j < i ==> children@[j].uri@ != uri@,
        decreases children@.len() - i,
    {
        if children[i].uri == *uri {
            return true;
        }
        i = i + 1;
    }
    false
}

/// Find and remove faulted children from the given nexus: only from a
/// degraded nexus that still has more than one child. Each removed child
/// leaves the observed nexus and, as its backing replica is disowned and
/// destroyed, the spec too.
pub fn faulted_children_remover(nexus_spec: &mut NexusSpec, state: &mut Nexus) -> (r: PollResult)
    ensures
        r == PollResult::Ok(PollerState::Idle),
        (old(state).status is Degraded && old(state).children@.len() > 1) ==> {
            &&& final(state).children@ == old(state).children@.filter(
                |c: Child| c.state !is Faulted,
            )
            &&& final(nexus_spec).children@ == old(nexus_spec).children@.filter(
                |c: NexusChild|
                    !spec_observed_faulted(old(state).children@, c.spec_uri()),
            )
        },
        !(old(state).status is Degraded && old(state).children@.len() > 1) ==> *final(state)
            == *old(state) && *final(nexus_spec) == *old(nexus_spec),
        final(state).share == old(state).share,
        final(state).status == old(state).status,
        final(state).node == old(state).node,
        final(state).uuid == old(state).uuid,
        final(nexus_spec).share == old(nexus_spec).share,
        final(nexus_spec).status == old(nexus_spec).status,
        final(nexus_spec).node == old(nexus_spec).node,
        final(nexus_spec).uuid == old(nexus_spec).uuid,
        final(nexus_spec).size == old(nexus_spec).size,
        final(nexus_spec).managed == old(nexus_spec).managed,
        final(nexus_spec).owner == old(nexus_spec).owner,
        final(nexus_spec).operation == old(nexus_spec).operation,
        final(nexus_spec).sequencer == old(nexus_spec).sequencer,
    {
    let degraded = match state.status {
        NexusStatus::Degraded => true,
        _ => false,
    };
    if !(degraded && state.children.len() > 1) {
        return Ok(PollerState::Idle);
    }
    let ghost state_before = state.children@;

    // first drop the spec children whose URI the data plane reports faulted
    let ghost spec_before = nexus_spec.children@;
    let ghost spred = |c: NexusChild| !spec_observed_faulted(state_before, c.spec_uri());
    let mut kept_spec: Vec<NexusChild> = Vec::new();
    let mut j: usize = 0;
    proof {
        reveal(Seq::filter);
        assert(spec_before.take(0int).filter(spred) =~= Seq::<NexusChild>::empty());
    }
    while j < nexus_spec.children.len()
        invariant
            0 <= j <= nexus_spec.children@.len(),
            nexus_spec.children@ == spec_before,
            state.children@ == state_before,
            spred == (|c: NexusChild| !spec_observed_faulted(state_before, c.spec_uri())),
            kept_spec@ == spec_before.take(j as int).filter(spred),
        decreases nexus_spec.children@.len() - j,
    {
        proof {
            reveal(Seq::filter);
            assert(spec_before.take(j as int + 1).drop_last() =~= spec_before.take(j as int));
            assert(spec_before.take(j as int + 1).last() == spec_before[j as int]);
        }
        let faulted_here = observed_faulted_uri(&state.children, nexus_spec.children[j].uri());
        if !faulted_here {
            kept_spec.push(nexus_spec.children[j].clone());
        }
        j = j + 1;
    }
    proof {
        assert(spec_before.take(spec_before.len() as int) =~= spec_before);
    }
    nexus_spec.children = kept_spec;

    // then remove the faulted children from the observed nexus
    let ghost cpred = |c: Child| c.state !is Faulted;
    let mut kept: Vec<Child> = Vec::new();
    let mut i: usize = 0;
    proof {
        reveal(Seq::filter);
        assert(state_before.take(0int).filter(cpred) =~= Seq::<Child>::empty());
    }
    while i < state.children.len()
        invariant
            0 <= i <= state.children@.len(),
            state.children@ == state_before,
            cpred == (|c: Child| c.state !is Faulted),
            kept@ == state_before.take(i as int).filter(cpred),
        decreases state.children@.len() - i,
    {
        proof {
            reveal(Seq::filter);
            assert(state_before.take(i as int + 1).drop_last() =~= state_before.take(i as int));
            assert(state_before.take(i as int + 1).last() == state_before[i as int]);
        }
        if !state.children[i].state.faulted() {
            kept.push(state.children[i].clone());
        }
        i = i + 1;
    }
    proof {
        assert(state_before.take(state_before.len() as int) =~= state_before);
    }
    state.children = kept;
    Ok(PollerState::Idle)
}

/// Find and remove unknown children from the given nexus: every observed
/// child whose URI no spec child carries is removed from the nexus. The
/// backing storage is not destroyed — it was not ours.
pub fn unknown_children_remover(nexus_spec: &NexusSpec, state: &mut Nexus) -> (r: PollResult)
    ensures
        r == PollResult::Ok(PollerState::Idle),
        final(state).children@ == old(state).children@.filter(
            |c: Child| spec_has_child_uri(nexus_spec.children@, c.uri@),
        ),
        final(state).share == old(state).share,
        final(state).status == old(state).status,
        final(state).node == old(state).node,
        final(state).uuid == old(state).uuid,
        final(state).size == old(state).size,
        final(state).device_uri == old(state).device_uri,
        final(state).rebuilds == old(state).rebuilds,
{
    let ghost state_before = state.children@;
    let ghost pred = |c: Child| spec_has_child_uri(nexus_spec.children@, c.uri@);
    let mut kept: Vec<Child> = Vec::new();
    let mut i: usize = 0;
    proof {
        reveal(Seq::filter);
        assert(state_before.take(0int).filter(pred) =~= Seq::<Child>::empty());
    }
    while i < state.children.len()
        invariant
            0 <= i <= state.children@.len(),
            state.children@ == state_before,
            pred == (|c: Child| spec_has_child_uri(nexus_spec.children@, c.uri@)),
            kept@ == state_before.take(i as int).filter(pred),
        decreases state.children@.len() - i,
    {
        proof {
            reveal(Seq::filter);
            assert(state_before.take(i as int + 1).drop_last() =~= state_before.take(i as int));
            assert(state_before.take(i as int + 1).last() == state_before[i as int]);
        }
        if nexus_spec.has_child_uri(&state.children[i].uri) {
            kept.push(state.children[i].clone());
        }
        i = i + 1;
    }
    proof {
        assert(state_before.take(state_before.len() as int) =~= state_before);
    }
    state.children = kept;
    Ok(PollerState::Idle)
}

/// Find and remove missing children: every spec child that the data plane
/// no longer reports is removed from the spec, its backing replica
/// disowned and destroyed. It was removed for a reason; the recreate
/// reconciler will replace it.
pub fn missing_children_remover(nexus_spec: &mut NexusSpec, state: &Nexus) -> (r: PollResult)
    ensures
        r == PollResult::Ok(PollerState::Idle),
        final(nexus_spec).children@ == old(nexus_spec).children@.filter(
            |c: NexusChild| spec_observed_has_uri(state.children@, c.spec_uri()),
        ),
        final(nexus_spec).share == old(nexus_spec).share,
        final(nexus_spec).status == old(nexus_spec).status,
        final(nexus_spec).node == old(nexus_spec).node,
        final(nexus_spec).uuid == old(nexus_spec).uuid,
        final(nexus_spec).size == old(nexus_spec).size,
        final(nexus_spec).managed == old(nexus_spec).managed,
        final(nexus_spec).owner == old(nexus_spec).owner,
        final(nexus_spec).operation == old(nexus_spec).operation,
        final(nexus_spec).sequencer == old(nexus_spec).sequencer,
{
    let ghost spec_before = nexus_spec.children@;
    let ghost pred = |c: NexusChild| spec_observed_has_uri(state.children@, c.spec_uri());
    let mut kept: Vec<NexusChild> = Vec::new();
    let mut j: usize = 0;
    proof {
        reveal(Seq::filter);
        assert(spec_before.take(0int).filter(pred) =~= Seq::<NexusChild>::empty());
    }
    while j < nexus_spec.children.len()
        invariant
            0 <= j <= nexus_spec.children@.len(),
            nexus_spec.children@ == spec_before,
            pred == (|c: NexusChild| spec_observed_has_uri(state.children@, c.spec_uri())),
            kept@ == spec_before.take(j as int).filter(pred),
        decreases nexus_spec.children@.len() - j,
    {
        proof {
            reveal(Seq::filter);
            assert(spec_before.take(j as int + 1).drop_last() =~= spec_before.take(j as int));
            assert(spec_before.take(j as int + 1).last() == spec_before[j as int]);
        }
        if observed_has_uri(&state.children, nexus_spec.children[j].uri()) {
            kept.push(nexus_spec.children[j].clone());
        }
        j = j + 1;
    }
    proof {
        assert(spec_before.take(spec_before.len() as int) =~= spec_before);
    }
    nexus_spec.children = kept;
    Ok(PollerState::Idle)
}

/// Fix the nexus share protocol when it does not match the spec: a
/// mismatching shared nexus is first unshared, then shared over the
/// spec's protocol where the spec asks for one the nexus supports.
pub fn fixup_nexus_protocol(nexus_spec: &NexusSpec, state: &mut Nexus) -> (r: PollResult)
    ensures
        r == PollResult::Ok(PollerState::Idle),
        old(state).share == nexus_spec.share ==> *final(state) == *old(state),
        old(state).share != nexus_spec.share ==> final(state).share == (
        if nexus_spec.share is Nvmf || nexus_spec.share is Iscsi {
            nexus_spec.share
        } else {
            Protocol::Unshared
        }),
        final(state).children@ == old(state).children@,
        final(state).status == old(state).status,
        final(state).node == old(state).node,
        final(state).uuid == old(state).uuid,
        final(state).size == old(state).size,
        final(state).device_uri == old(state).device_uri,
        final(state).rebuilds == old(state).rebuilds,
{
    if state.share == nexus_spec.share {
        return Ok(PollerState::Idle);
    }
    // mismatching protocols: first unshare the nexus
    if (state.share.shared() && nexus_spec.share.shared()) || !nexus_spec.share.shared() {
        state.share = Protocol::Unshared;
    }
    if nexus_spec.share.shared() {
        match crate::msg::nexus_protocol_of(nexus_spec.share) {
            Some(protocol) => {
                state.share = match protocol {
                    crate::msg::NexusShareProtocol::Nvmf => Protocol::Nvmf,
                    crate::msg::NexusShareProtocol::Iscsi => Protocol::Iscsi,
                };
            },
            None => {
                // the spec asks for a protocol the nexus cannot serve;
                // leave the nexus unshared
                state.share = Protocol::Unshared;
            },
        }
    }
    Ok(PollerState::Idle)
}

/// Remove a faulted nexus so it can be recreated with its healthy
/// children: only when at least one healthy candidate is back and the
/// node is online. The recreate reconciler brings it back.
pub fn faulted_nexus_remover(
    nexus_spec: &NexusSpec,
    observed: &mut Option<Nexus>,
    healthy_count: usize,
    online: bool,
) -> (r: PollResult)
    ensures
        r == PollResult::Ok(PollerState::Idle),
        (*old(observed) matches Some(n) && n.status is Faulted && healthy_count > 0 && online)
            ==> *final(observed) is None,
        !(*old(observed) matches Some(n) && n.status is Faulted && healthy_count > 0 && online)
            ==> *final(observed) == *old(observed),
{
    let faulted = match observed {
        Some(n) => match n.status {
            NexusStatus::Faulted => true,
            _ => false,
        },
        None => false,
    };
    if faulted && healthy_count > 0 && online {
        // destroy the nexus; the missing-nexus reconciler will recreate it
        *observed = None;
    }
    Ok(PollerState::Idle)
}

/// Whether the nexus spec names at least one replica child that currently
/// qualifies as a scheduler candidate.
pub open spec fn spec_has_qualifying_child(
    nexus: NexusSpec,
    specs: ResourceSpecs,
    nodes: Seq<NodeEntry>,
    states: Seq<Replica>,
    info: Option<NexusInfo>,
) -> bool {
    exists|j: int|
        0 <= j < nexus.children.len() && (#[trigger] nexus.children[j].spec_replica_uuid())
            is Some && spec_candidate_ok(
            specs,
            nodes,
            states,
            info,
            nexus.children[j].spec_replica_uuid()->Some_0@,
        )
}

/// Whether `child` is a child a recreate is allowed to bring up for the
/// spec: the online observed state of a qualifying replica child, reached
/// through the URI that state carries.
pub open spec fn spec_recreated_child(
    nexus_spec: NexusSpec,
    specs: ResourceSpecs,
    nodes: Seq<NodeEntry>,
    states: Seq<Replica>,
    info: Option<NexusInfo>,
    child: Child,
) -> bool {
    &&& child.state is Online
    &&& exists|j: int|
        0 <= j < nexus_spec.children@.len() && (#[trigger] nexus_spec.children@[
            j
        ].spec_replica_uuid()) is Some && spec_candidate_ok(
            specs,
            nodes,
            states,
            info,
            nexus_spec.children@[j].spec_replica_uuid()->Some_0@,
        ) && (crate::scheduling::spec_state_of(
            states,
            nexus_spec.children@[j].spec_replica_uuid()->Some_0@,
        ) matches Some(st) && st.uri@ == child.uri@)
}

/// Recreate the given nexus on its associated node when the data plane no
/// longer reports it. Only healthy replicas are reused, each through the
/// URI its observed state carries; after an unclean shutdown only the
/// first candidate, letting rebuild catch the rest. The persisted spec is
/// not modified by this step. With no candidate at all the nexus is left
/// missing — when the health record says no replica is healthy, manual
/// intervention is required.
pub fn missing_nexus_recreate(
    nexus_spec: &mut NexusSpec,
    observed: &mut Option<Nexus>,
    specs: &ResourceSpecs,
    nodes: &Vec<NodeEntry>,
    replica_states: &Vec<Replica>,
    info: Option<&NexusInfo>,
) -> (r: PollResult)
    requires
        specs.wf(),
    ensures
        r == PollResult::Ok(PollerState::Idle),
        // the persisted spec is never modified by a recreate
        *final(nexus_spec) == *old(nexus_spec),
        *old(observed) is Some ==> *final(observed) == *old(observed),
        (*old(observed) is None && !spec_node_online(nodes@, old(nexus_spec).node@)) ==> *final(observed) == *old(observed),
        // either nothing was done, or the nexus now runs with scheduled
        // healthy children of the spec, at most one after an unclean
        // shutdown
        (*final(observed) == *old(observed)) || ({
            &&& *final(observed) matches Some(n)
            &&& n.node@ == old(nexus_spec).node@
            &&& n.uuid@ == old(nexus_spec).uuid@
            &&& n.size == old(nexus_spec).size
            &&& n.share is Unshared
            &&& n.status is Online
            &&& n.children@.len() > 0
            &&& forall|i: int|
                0 <= i < n.children@.len() ==> spec_recreated_child(
                    *old(nexus_spec),
                    *specs,
                    nodes@,
                    replica_states@,
                    spec_info_of(info),
                    #[trigger] n.children@[i],
                )
            &&& ((spec_info_of(info) matches Some(inf) && !inf.clean_shutdown)
                ==> n.children@.len() <= 1)
        }),
        // a qualifying child guarantees the recreate happened
        (*old(observed) is None && spec_node_online(nodes@, old(nexus_spec).node@)
            && spec_has_qualifying_child(
            *old(nexus_spec),
            *specs,
            nodes@,
            replica_states@,
            spec_info_of(info),
        )) ==> *final(observed) is Some,
        // with a record that marks no replica healthy, nothing is created
        (*old(observed) is None && (spec_info_of(info) matches Some(inf)
            && inf.spec_no_healthy_replicas())) ==> *final(observed) is None,
{
    match observed {
        Some(_) => {
            return Ok(PollerState::Idle);
        },
        None => {},
    }
    if !node_online(nodes, &nexus_spec.node) {
        return Ok(PollerState::Idle);
    }
    let children = get_healthy_nexus_children(nexus_spec, specs, nodes, replica_states, info);
    let one = match &children {
        HealthyChildItems::One(_, _) => true,
        HealthyChildItems::All(_, _) => false,
    };
    let candidates = children.candidates();
    let limit: usize = if one {
        if candidates.len() > 0 {
            1
        } else {
            0
        }
    } else {
        candidates.len()
    };
    if limit == 0 {
        proof {
            if spec_has_qualifying_child(
                *nexus_spec,
                *specs,
                nodes@,
                replica_states@,
                spec_info_of(info),
            ) {
                let j = choose|j: int|
                    0 <= j < nexus_spec.children.len() && (#[trigger] nexus_spec.children[
                        j
                    ].spec_replica_uuid()) is Some && spec_candidate_ok(
                        *specs,
                        nodes@,
                        replica_states@,
                        spec_info_of(info),
                        nexus_spec.children[j].spec_replica_uuid()->Some_0@,
                    );
                assert(children.spec_candidates().len() > 0);
            }
        }
        return Ok(PollerState::Idle);
    }
    let mut new_obs_children: Vec<Child> = Vec::new();
    let mut k: usize = 0;
    while k < limit
        invariant
            0 <= k <= limit,
            limit <= candidates@.len(),
            specs.wf(),
            new_obs_children@.len() == k,
            candidates@ == children.spec_candidates(),
            forall|i: int|
                0 <= i < candidates@.len() ==> spec_candidate_ok(
                    *specs,
                    nodes@,
                    replica_states@,
                    spec_info_of(info),
                    #[trigger] candidates@[i].item_spec.uuid@,
                ) && crate::scheduling::spec_has_replica_child(
                    nexus_spec.children@,
                    candidates@[i].item_spec.uuid@,
                ) && crate::scheduling::spec_state_of(
                    replica_states@,
                    candidates@[i].item_spec.uuid@,
                ) == Some(candidates@[i].item_state),
            forall|i: int|
                0 <= i < k ==> spec_recreated_child(
                    *nexus_spec,
                    *specs,
                    nodes@,
                    replica_states@,
                    spec_info_of(info),
                    #[trigger] new_obs_children@[i],
                ),
        decreases limit - k,
    {
        let ghost gobs_before = new_obs_children@;
        let uri = ChildUri::new(candidates[k].state().uri.clone());
        new_obs_children.push(
            Child { uri, state: crate::child::ChildState::Online, rebuild_progress: None },
        );
        proof {
            let u = candidates@[k as int].item_spec.uuid@;
            assert(new_obs_children@[k as int].uri@ == candidates@[k as int].item_state.uri@);
            let j = choose|j: int|
                0 <= j < nexus_spec.children@.len() && (#[trigger] nexus_spec.children@[
                    j
                ].spec_replica_uuid()) is Some && nexus_spec.children@[
                    j
                ].spec_replica_uuid()->Some_0@ == u;
            assert(crate::scheduling::spec_state_of(replica_states@, u) == Some(
                candidates@[k as int].item_state,
            ));
            assert(spec_recreated_child(
                *nexus_spec,
                *specs,
                nodes@,
                replica_states@,
                spec_info_of(info),
                new_obs_children@[k as int],
            ));
            assert forall|i: int|
                0 <= i < k + 1 implies spec_recreated_child(
                *nexus_spec,
                *specs,
                nodes@,
                replica_states@,
                spec_info_of(info),
                #[trigger] new_obs_children@[i],
            ) by {
                if i < k {
                    assert(new_obs_children@[i] == gobs_before[i]);
                }
            }
        }
        k = k + 1;
    }
    *observed = Some(
        Nexus {
            node: nexus_spec.node.clone(),
            uuid: nexus_spec.uuid.clone(),
            size: nexus_spec.size,
            status: NexusStatus::Online,
            children: new_obs_children,
            device_uri: String::new(),
            rebuilds: 0,
            share: Protocol::Unshared,
        },
    );
    Ok(PollerState::Idle)
}

/// Whether some observed child carries the given URI in the `Faulted`
/// state.
pub fn observed_faulted_uri(children: &Vec<Child>, uri: &ChildUri) -> (r: bool)
    ensures
        r == spec_observed_faulted(children@, uri@),
{
    let mut i: usize = 0;
    while i < children.len()
        invariant
            0 <= i <= children@.len(),
            forall|j: int|
                0 <= j < i ==> !(children@[j].uri@ == uri@ && children@[j].state is Faulted),
        decreases children@.len() - i,
    {
        if children[i].uri == *uri && children[i].state.faulted() {
            return true;
        }
        i = i + 1;
    }
    false
}


/// Whether the spec and the observed nexus agree: the nexus exists, every
/// spec child is observed, every observed child is in the spec, and the
/// share protocol matches.
pub open spec fn spec_converged(nexus_spec: NexusSpec, observed: Option<Nexus>) -> bool {
    observed matches Some(n) && {
        &&& forall|i: int|
            0 <= i < nexus_spec.children@.len() ==> spec_observed_has_uri(
                n.children@,
                (#[trigger] nexus_spec.children@[i]).spec_uri(),
            )
        &&& forall|i: int|
            0 <= i < n.children@.len() ==> spec_has_child_uri(
                nexus_spec.children@,
                (#[trigger] n.children@[i]).uri@,
            )
        &&& n.share == nexus_spec.share
    }
}

/// One full reconcile pass over a created nexus: remove faulted children,
/// remove unknown children, drop missing children from the spec, recreate
/// the nexus when it is gone, and fix the share protocol.
///
/// Reconciler convergence, in the model in which every corrective
/// data-plane call succeeds: with the nexus present, one pass drives any
/// divergent pair of spec and observed state to agreement. With the nexus
/// gone, one pass brings it back with scheduled healthy children of the
/// spec (at most one after an unclean shutdown) and the spec's protocol,
/// leaving the persisted spec untouched; the pass after that one falls
/// under the nexus-present clause and reaches agreement, so the bound is
/// two passes — provided the spec records its children under the URIs
/// their replicas are observed at, else the recreated children count as
/// unknown and are re-driven. The passes that cannot make progress are
/// named in the clauses: a gone nexus on a node that is not online, or
/// with no qualifying candidate; when the health record marks no replica
/// healthy, the pass leaves the nexus missing and that record is the
/// answer. A spec share of `Nbd`, which a nexus cannot serve, is left out
/// of the agreement claims: the nexus then stays unshared.
pub fn nexus_reconciler(
    nexus_spec: &mut NexusSpec,
    observed: Option<Nexus>,
    specs: &ResourceSpecs,
    nodes: &Vec<NodeEntry>,
    replica_states: &Vec<Replica>,
    info: Option<&NexusInfo>,
) -> (r: (Option<Nexus>, PollResult))
    requires
        specs.wf(),
        old(nexus_spec).status is Created,
    ensures
        r.1 == PollResult::Ok(PollerState::Idle),
        (observed is Some && old(nexus_spec).share !is Nbd) ==> spec_converged(
            *final(nexus_spec),
            r.0,
        ),
        (observed is None && spec_node_online(nodes@, old(nexus_spec).node@)
            && spec_has_qualifying_child(
            *old(nexus_spec),
            *specs,
            nodes@,
            replica_states@,
            spec_info_of(info),
        ) && old(nexus_spec).share !is Nbd) ==> ({
            &&& r.0 matches Some(n)
            &&& n.share == old(nexus_spec).share
            &&& n.children@.len() > 0
            &&& forall|i: int|
                0 <= i < n.children@.len() ==> spec_recreated_child(
                    *old(nexus_spec),
                    *specs,
                    nodes@,
                    replica_states@,
                    spec_info_of(info),
                    #[trigger] n.children@[i],
                )
            &&& ((spec_info_of(info) matches Some(inf) && !inf.clean_shutdown)
                ==> n.children@.len() <= 1)
        }),
        (observed is None && (spec_info_of(info) matches Some(inf)
            && inf.spec_no_healthy_replicas())) ==> r.0 is None,
        observed is None ==> *final(nexus_spec) == *old(nexus_spec),
        final(nexus_spec).status == old(nexus_spec).status,
        final(nexus_spec).share == old(nexus_spec).share,
        final(nexus_spec).node == old(nexus_spec).node,
        final(nexus_spec).uuid == old(nexus_spec).uuid,
        final(nexus_spec).size == old(nexus_spec).size,
        final(nexus_spec).managed == old(nexus_spec).managed,
        final(nexus_spec).owner == old(nexus_spec).owner,
        final(nexus_spec).operation == old(nexus_spec).operation,
        final(nexus_spec).sequencer == old(nexus_spec).sequencer,
{
    match observed {
        Some(mut n) => {
            let ghost st0 = n.children@;
            let _ = faulted_children_remover(nexus_spec, &mut n);
            let ghost s1 = nexus_spec.children@;
            let ghost st1 = n.children@;
            let _ = unknown_children_remover(nexus_spec, &mut n);
            let ghost st2 = n.children@;
            let _ = missing_children_remover(nexus_spec, &n);
            let ghost s2 = nexus_spec.children@;
            let _ = fixup_nexus_protocol(nexus_spec, &mut n);
            proof {
                let pred_known = |c: Child| spec_has_child_uri(s1, c.uri@);
                let pred_present = |c: NexusChild| spec_observed_has_uri(st2, c.spec_uri());
                assert(st2 == st1.filter(pred_known));
                assert(s2 == s1.filter(pred_present));
                assert forall|i: int|
                    0 <= i < s2.len() implies spec_observed_has_uri(
                    n.children@,
                    (#[trigger] s2[i]).spec_uri(),
                ) by {
                    s1.filter_lemma(pred_present);
                    assert(pred_present(s2[i]));
                }
                assert forall|i: int|
                    0 <= i < n.children@.len() implies spec_has_child_uri(
                    s2,
                    (#[trigger] n.children@[i]).uri@,
                ) by {
                    st1.filter_lemma(pred_known);
                    assert(pred_known(st2[i]));
                    let w = choose|w: int| 0 <= w < s1.len() && s1[w].spec_uri() == st2[i].uri@;
                    assert(spec_observed_has_uri(st2, s1[w].spec_uri()));
                    assert(pred_present(s1[w]));
                    s1.filter_lemma(pred_present);
                    assert(s2.contains(s1[w]));
                    let v = choose|v: int| 0 <= v < s2.len() && s2[v] == s1[w];
                    assert(s2[v].spec_uri() == n.children@[i].uri@);
                }
            }
            (Some(n), Ok(PollerState::Idle))
        },
        None => {
            let mut obs: Option<Nexus> = None;
            let _ = missing_nexus_recreate(
                nexus_spec,
                &mut obs,
                specs,
                nodes,
                replica_states,
                info,
            );
            match obs {
                Some(mut n) => {
                    let ghost st2 = n.children@;
                    let _ = fixup_nexus_protocol(nexus_spec, &mut n);
                    proof {
                        // the share fixup rewrites the protocol alone; every
                        // recreated child stays as the recreate left it
                        assert(n.children@ == st2);
                    }
                    (Some(n), Ok(PollerState::Idle))
                },
                None => (None, Ok(PollerState::Idle)),
            }
        },
    }
}

/// Polls per firing of a reconciler's timer.
pub type PollPeriods = u32;

/// The snapshot a reconciler tick works against: the spec registry, the
/// node cache, and the observed data-plane objects with the persisted
/// nexus-info records, each keyed by uuid.
#[derive(Debug)]
pub struct PollContext {
    /// The spec registry.
    pub specs: ResourceSpecs,
    /// The known nodes.
    pub nodes: Vec<NodeEntry>,
    /// Observed replicas across all nodes.
    pub replica_states: Vec<Replica>,
    /// Observed nexuses, keyed by uuid.
    pub nexus_states: Vec<(String, Option<Nexus>)>,
    /// Persisted nexus-info records, keyed by uuid.
    pub infos: Vec<(String, NexusInfo)>,
}

impl PollContext {
    /// Well-formed: the registry is, and the keyed snapshots hold each
    /// uuid at most once.
    pub open spec fn wf(&self) -> bool {
        &&& self.specs.wf()
        &&& crate::kvlist::unique_keys(self.nexus_states@)
        &&& crate::kvlist::unique_keys(self.infos@)
    }
}

/// Whether a nexus spec is one the reconciler loop works on: created,
/// managed by the control plane, and not owned by a volume (those are
/// reconciled by the volume's own loop).
pub open spec fn spec_poll_eligible(nexus_spec: NexusSpec) -> bool {
    &&& nexus_spec.status is Created
    &&& nexus_spec.managed
    &&& !nexus_spec.spec_owned()
}

/// The candidate check answers alike over two registries with the same
/// replica and pool maps and two health records with the same entries.
proof fn lemma_candidate_ok_congruent(
    a: ResourceSpecs,
    b: ResourceSpecs,
    nodes: Seq<NodeEntry>,
    states: Seq<Replica>,
    ia: Option<NexusInfo>,
    ib: Option<NexusInfo>,
    u: Seq<char>,
)
    requires
        a.replicas@ == b.replicas@,
        a.pools@ == b.pools@,
        ia is Some <==> ib is Some,
        ia matches Some(x) ==> (ib matches Some(y) && x.children@ == y.children@),
    ensures
        spec_candidate_ok(a, nodes, states, ia, u) == spec_candidate_ok(b, nodes, states, ib, u),
{
    assert(a.spec_replica_of(u) == b.spec_replica_of(u));
    match a.spec_replica_of(u) {
        Some(rs) => {
            assert(a.spec_pool_of(rs.pool@) == b.spec_pool_of(rs.pool@));
        },
        None => {},
    }
    match (ia, ib) {
        (Some(x), Some(y)) => {
            assert(x.spec_child_healthy(u) == y.spec_child_healthy(u)) by {
                if x.spec_child_healthy(u) {
                    let i = choose|i: int|
                        0 <= i < x.children@.len() && x.children@[i].uuid@ == u && x.children@[
                            i
                        ].healthy;
                    assert(y.children@[i].uuid@ == u && y.children@[i].healthy);
                }
                if y.spec_child_healthy(u) {
                    let i = choose|i: int|
                        0 <= i < y.children@.len() && y.children@[i].uuid@ == u && y.children@[
                            i
                        ].healthy;
                    assert(x.children@[i].uuid@ == u && x.children@[i].healthy);
                }
            }
        },
        _ => {},
    }
}

/// The qualifying-child check answers alike over specs with the same
/// children, registries with the same replica and pool maps, and health
/// records with the same entries.
proof fn lemma_qualifying_congruent(
    sa: NexusSpec,
    sb: NexusSpec,
    a: ResourceSpecs,
    b: ResourceSpecs,
    nodes: Seq<NodeEntry>,
    states: Seq<Replica>,
    ia: Option<NexusInfo>,
    ib: Option<NexusInfo>,
)
    requires
        sa.children@ == sb.children@,
        a.replicas@ == b.replicas@,
        a.pools@ == b.pools@,
        ia is Some <==> ib is Some,
        ia matches Some(x) ==> (ib matches Some(y) && x.children@ == y.children@),
    ensures
        spec_has_qualifying_child(sa, a, nodes, states, ia) == spec_has_qualifying_child(
            sb,
            b,
            nodes,
            states,
            ib,
        ),
{
    assert forall|j: int| 0 <= j < sa.children.len() implies (((#[trigger] sa.children[
        j
    ].spec_replica_uuid()) is Some && spec_candidate_ok(
        a,
        nodes,
        states,
        ia,
        sa.children[j].spec_replica_uuid()->Some_0@,
    )) == ((sb.children[j].spec_replica_uuid()) is Some && spec_candidate_ok(
        b,
        nodes,
        states,
        ib,
        sb.children[j].spec_replica_uuid()->Some_0@,
    ))) by {
        assert(sa.children[j] == sb.children[j]);
        if sa.children[j].spec_replica_uuid() is Some {
            lemma_candidate_ok_congruent(
                a,
                b,
                nodes,
                states,
                ia,
                ib,
                sa.children[j].spec_replica_uuid()->Some_0@,
            );
        }
    }
    if spec_has_qualifying_child(sa, a, nodes, states, ia) {
        let j = choose|j: int|
            0 <= j < sa.children.len() && (#[trigger] sa.children[j].spec_replica_uuid()) is Some
                && spec_candidate_ok(
                a,
                nodes,
                states,
                ia,
                sa.children[j].spec_replica_uuid()->Some_0@,
            );
        assert((sb.children[j].spec_replica_uuid()) is Some && spec_candidate_ok(
            b,
            nodes,
            states,
            ib,
            sb.children[j].spec_replica_uuid()->Some_0@,
        ));
    }
    if spec_has_qualifying_child(sb, b, nodes, states, ib) {
        let j = choose|j: int|
            0 <= j < sb.children.len() && (#[trigger] sb.children[j].spec_replica_uuid()) is Some
                && spec_candidate_ok(
                b,
                nodes,
                states,
                ib,
                sb.children[j].spec_replica_uuid()->Some_0@,
            );
        assert((sa.children[j].spec_replica_uuid()) is Some && spec_candidate_ok(
            a,
            nodes,
            states,
            ia,
            sa.children[j].spec_replica_uuid()->Some_0@,
        ));
    }
}

/// What one poll owes for the eligible nexus spec at index `j`: its uuid
/// is kept; its snapshot entry now exists; a nexus that was observed is
/// reconciled to agreement with the final spec, and a nexus that was gone
/// has been recreated when its node was online and a qualifying candidate
/// existed. The spec's own share must not ask for a protocol the nexus
/// cannot serve.
pub open spec fn spec_polled(before: PollContext, after: PollContext, j: int) -> bool {
    let old_spec = before.specs.nexuses@[j];
    let new_spec = after.specs.nexuses@[j];
    let entry_before = crate::kvlist::spec_find(before.nexus_states@, old_spec.uuid@);
    let entry_after = crate::kvlist::spec_find(after.nexus_states@, old_spec.uuid@);
    &&& new_spec.uuid@ == old_spec.uuid@
    &&& entry_after is Some
    &&& ((old_spec.share !is Nbd && (entry_before matches Some(e) && e is Some))
        ==> spec_converged(new_spec, entry_after->Some_0))
    &&& ((old_spec.share !is Nbd && !(entry_before matches Some(e) && e is Some)
        && spec_node_online(before.nodes@, old_spec.node@) && spec_has_qualifying_child(
        old_spec,
        before.specs,
        before.nodes@,
        before.replica_states@,
        crate::kvlist::spec_find(before.infos@, old_spec.uuid@),
    )) ==> entry_after->Some_0 is Some)
}

/// The nexus reconciler loop: on each fired tick it walks every managed,
/// unowned nexus spec, takes its sequencer for the pass, and runs the
/// reconcile sub-steps; a spec whose sequencer is held defers the whole
/// poll with `Busy`.
#[derive(Debug)]
pub struct NexusReconciler {
    /// Paces the polls.
    pub counter: PollTimer,
}

impl NexusReconciler {
    /// Return a new poller with the provided period.
    pub fn from(period: PollPeriods) -> (r: Self)
        ensures
            r.counter.period == period,
            r.counter.counter == 0,
    {
        NexusReconciler { counter: PollTimer::from(period) }
    }

    /// Return a new poller with the default period.
    pub fn new() -> (r: Self)
        ensures
            r.counter.period == 1,
            r.counter.counter == 0,
    {
        Self::from(1)
    }

    /// Whether this poll fires the timer.
    pub fn poll_timer(&mut self) -> (fired: bool)
        ensures
            fired == (old(self).counter.counter == 0),
    {
        self.counter.poll()
    }

    /// One reconcile tick: walk the created, managed, unowned nexus specs
    /// and run a reconcile pass on each against the snapshot; report
    /// `Busy` as soon as one sequencer refuses the pass. On an `Idle`
    /// answer every eligible nexus was driven through the pass; specs the
    /// loop does not work on are left untouched.
    pub fn poll(&mut self, context: &mut PollContext) -> (r: PollResult)
        requires
            old(context).wf(),
        ensures
            final(context).wf(),
            r is Ok,
            final(context).specs.nexuses@.len() == old(context).specs.nexuses@.len(),
            final(context).specs.pools@ == old(context).specs.pools@,
            final(context).specs.replicas@ == old(context).specs.replicas@,
            final(context).specs.volumes@ == old(context).specs.volumes@,
            final(context).nodes@ == old(context).nodes@,
            final(context).replica_states@ == old(context).replica_states@,
            final(context).infos@ == old(context).infos@,
            // specs outside the loop's scope are not touched at all
            forall|j: int|
                0 <= j < old(context).specs.nexuses@.len() && !spec_poll_eligible(
                    #[trigger] old(context).specs.nexuses@[j],
                ) ==> final(context).specs.nexuses@[j] == old(context).specs.nexuses@[j],
            // the whole poll defers only when some eligible nexus sits
            // behind a held sequencer; that nexus is left unmutated
            r == PollResult::Ok(PollerState::Busy) ==> exists|i: int|
                0 <= i < final(context).specs.nexuses@.len() && {
                    let spec = #[trigger] final(context).specs.nexuses@[i];
                    &&& spec_poll_eligible(spec)
                    &&& crate::sequencer::spec_try_acquire(
                        spec.sequencer.state,
                        crate::sequencer::OperationMode::ReconcileStart,
                    ) is None
                    &&& spec == old(context).specs.nexuses@[i]
                },
            // an idle answer says every eligible nexus was reconciled
            // against its snapshot
            r == PollResult::Ok(PollerState::Idle) ==> forall|j: int|
                0 <= j < old(context).specs.nexuses@.len() && spec_poll_eligible(
                    #[trigger] old(context).specs.nexuses@[j],
                ) ==> spec_polled(*old(context), *final(context), j),
    {
        let mut i: usize = 0;
        while i < context.specs.nexuses.len()
            invariant
                context.wf(),
                old(context).wf(),
                0 <= i <= context.specs.nexuses@.len(),
                context.specs.nexuses@.len() == old(context).specs.nexuses@.len(),
                context.specs.pools@ == old(context).specs.pools@,
                context.specs.replicas@ == old(context).specs.replicas@,
                context.specs.volumes@ == old(context).specs.volumes@,
                context.nodes@ == old(context).nodes@,
                context.replica_states@ == old(context).replica_states@,
                context.infos@ == old(context).infos@,
                forall|j: int|
                    i <= j < context.specs.nexuses@.len() ==> #[trigger] context.specs.nexuses@[j]
                        == old(context).specs.nexuses@[j],
                forall|j: int|
                    i <= j < context.specs.nexuses@.len() ==> crate::kvlist::spec_find(
                        context.nexus_states@,
                        (#[trigger] old(context).specs.nexuses@[j]).uuid@,
                    ) == crate::kvlist::spec_find(
                        old(context).nexus_states@,
                        old(context).specs.nexuses@[j].uuid@,
                    ),
                forall|j: int|
                    0 <= j < i && !spec_poll_eligible(#[trigger] old(context).specs.nexuses@[j])
                        ==> context.specs.nexuses@[j] == old(context).specs.nexuses@[j],
                forall|j: int|
                    0 <= j < i ==> (#[trigger] context.specs.nexuses@[j]).uuid@ == old(
                        context,
                    ).specs.nexuses@[j].uuid@,
                forall|j: int|
                    0 <= j < i && spec_poll_eligible(#[trigger] old(context).specs.nexuses@[j])
                        ==> spec_polled(*old(context), *context, j),
            decreases context.specs.nexuses@.len() - i,
        {
            let created = context.specs.nexuses[i].status.created();
            let managed = context.specs.nexuses[i].managed;
            let owned = context.specs.nexuses[i].owned();
            if created && managed && !owned {
                let mut spec = context.specs.nexuses[i].clone();
                if !spec.sequencer.try_acquire(
                    crate::sequencer::OperationMode::ReconcileStart,
                ) {
                    proof {
                        assert(spec_poll_eligible(context.specs.nexuses@[i as int])
                            && crate::sequencer::spec_try_acquire(
                            context.specs.nexuses@[i as int].sequencer.state,
                            crate::sequencer::OperationMode::ReconcileStart,
                        ) is None && context.specs.nexuses@[i as int] == old(
                            context,
                        ).specs.nexuses@[i as int]);
                    }
                    return Ok(PollerState::Busy);
                }
                let ghost old_spec = old(context).specs.nexuses@[i as int];
                let ghost entry_before = crate::kvlist::spec_find(
                    old(context).nexus_states@,
                    old_spec.uuid@,
                );
                let observed = match crate::kvlist::find_index(
                    &context.nexus_states,
                    &spec.uuid,
                ) {
                    Some(si) => clone_observed(&context.nexus_states[si].1),
                    None => None,
                };
                proof {
                    if !(entry_before matches Some(e) && e is Some) {
                        assert(observed is None);
                    }
                    if entry_before matches Some(e) && e is Some {
                        assert(observed is Some);
                    }
                }
                let ghost info_before = crate::kvlist::spec_find(
                    old(context).infos@,
                    old_spec.uuid@,
                );
                let info = match crate::kvlist::find_index(&context.infos, &spec.uuid) {
                    Some(fi) => Some(context.infos[fi].1.clone()),
                    None => None,
                };
                proof {
                    assert(info is Some <==> info_before is Some);
                }
                let ghost spec_at_call = spec;
                let (new_observed, _result) = nexus_reconciler(
                    &mut spec,
                    observed,
                    &context.specs,
                    &context.nodes,
                    &context.replica_states,
                    info.as_ref(),
                );
                proof {
                    // a qualifying candidate in the snapshot qualifies at
                    // the call just the same
                    lemma_qualifying_congruent(
                        old_spec,
                        spec_at_call,
                        old(context).specs,
                        context.specs,
                        context.nodes@,
                        context.replica_states@,
                        info_before,
                        crate::scheduling::spec_info_of(
                            match info {
                                Some(ref inf) => Some(inf),
                                None => None,
                            },
                        ),
                    );
                }
                spec.sequencer.release(crate::sequencer::OperationMode::ReconcileStart);
                let ghost polled_spec = spec;
                write_back_observed(&mut context.nexus_states, &spec.uuid, new_observed);
                context.specs.set_nexus(i, spec);
                proof {
                    assert(spec_polled(*old(context), *context, i as int));
                    assert forall|j: int|
                        0 <= j < i + 1 && spec_poll_eligible(
                            #[trigger] old(context).specs.nexuses@[j],
                        ) implies spec_polled(*old(context), *context, j) by {
                        if j < i {
                            assert(old(context).specs.nexuses@[j].uuid@ != old_spec.uuid@);
                        }
                    }
                    assert forall|j: int|
                        i + 1 <= j < context.specs.nexuses@.len() implies crate::kvlist::spec_find(
                        context.nexus_states@,
                        (#[trigger] old(context).specs.nexuses@[j]).uuid@,
                    ) == crate::kvlist::spec_find(
                        old(context).nexus_states@,
                        old(context).specs.nexuses@[j].uuid@,
                    ) by {
                        assert(old(context).specs.nexuses@[j].uuid@ != old_spec.uuid@);
                    }
                }
            }
            i = i + 1;
        }
        Ok(PollerState::Idle)
    }
}

/// Clone an observed-nexus snapshot entry.
fn clone_observed(o: &Option<Nexus>) -> (r: Option<Nexus>)
    ensures
        r is Some <==> *o is Some,
        (*o matches Some(n) ==> r->Some_0.spec_eqv(n)),
{
    match o {
        Some(n) => Some(n.clone()),
        None => None,
    }
}

/// Write the observed nexus back into the keyed snapshot, keeping each
/// uuid at most once: that uuid's entry now holds the value, every other
/// uuid's lookup is untouched.
fn write_back_observed(
    states: &mut Vec<(String, Option<Nexus>)>,
    uuid: &String,
    observed: Option<Nexus>,
)
    requires
        crate::kvlist::unique_keys(old(states)@),
    ensures
        crate::kvlist::unique_keys(final(states)@),
        crate::kvlist::spec_find(final(states)@, uuid@) == Some(observed),
        forall|k: Seq<char>|
            k != uuid@ ==> crate::kvlist::spec_find(final(states)@, k)
                == crate::kvlist::spec_find(old(states)@, k),
{
    match crate::kvlist::find_index(states, uuid) {
        Some(i) => {
            let k = states[i].0.clone();
            proof {
                assert forall|a: int, b: int|
                    0 <= a < b < states@.update(i as int, (k, observed)).len() implies states@
                    .update(i as int, (k, observed))[a].0@ != states@.update(
                    i as int,
                    (k, observed),
                )[b].0@ by {
                    assert(states@[a].0@ != states@[b].0@);
                }
                assert forall|kk: Seq<char>| #![auto] true implies crate::kvlist::spec_find(
                    states@.update(i as int, (k, observed)),
                    kk,
                ) == (if kk == uuid@ {
                    Some(observed)
                } else {
                    crate::kvlist::spec_find(states@, kk)
                }) by {
                    crate::kvlist::lemma_find_update(states@, i as int, (k, observed), kk);
                }
            }
            states.set(i, (k, observed));
        },
        None => {
            let ghost before = states@;
            let k = uuid.clone();
            proof {
                crate::kvlist::lemma_find_none_rev(states@, uuid@);
                assert forall|a: int, b: int|
                    0 <= a < b < before.push((k, observed)).len() implies before.push(
                    (k, observed),
                )[a].0@ != before.push((k, observed))[b].0@ by {
                    if b < before.len() {
                        assert(before.push((k, observed))[a] == before[a]);
                        assert(before.push((k, observed))[b] == before[b]);
                    } else {
                        assert(before.push((k, observed))[b] == (k, observed));
                        assert(before.push((k, observed))[a] == before[a]);
                    }
                }
                assert forall|kk: Seq<char>| #![auto] true implies crate::kvlist::spec_find(
                    before.push((k, observed)),
                    kk,
                ) == (if kk == uuid@ {
                    Some(observed)
                } else {
                    crate::kvlist::spec_find(before, kk)
                }) by {
                    crate::kvlist::lemma_find_push(before, (k, observed), kk);
                    if kk == uuid@ {
                        assert(crate::kvlist::spec_find(before, kk) is None);
                    }
                }
            }
            states.push((k, observed));
        },
    }
}

/// Whether the nexus with uuid text `u` is recorded as going away while
/// the data plane no longer reports it.
pub open spec fn spec_nexus_gone(
    nexuses: Seq<NexusSpec>,
    present: Seq<String>,
    u: Seq<char>,
) -> bool {
    exists|j: int|
        0 <= j < nexuses.len() && (#[trigger] nexuses[j]).uuid@ == u && (nexuses[j].status
            is Deleting || nexuses[j].status is Deleted) && !crate::msg::spec_id_in(present, u)
}

/// Whether some managed replica with uuid text `u` has no owner left.
pub open spec fn spec_replica_orphaned(replicas: Seq<crate::replica::ReplicaSpec>, u: Seq<char>) -> bool {
    exists|j: int|
        0 <= j < replicas.len() && (#[trigger] replicas[j]).uuid@ == u && replicas[j].managed
            && !replicas[j].owners.spec_is_owned()
}

/// The nexus garbage collector's pick: the uuids of nexus specs that are
/// deleting or deleted while the data plane no longer reports the nexus.
/// Those records are safe to drop from the store and the registry.
pub fn nexus_garbage_candidates(specs: &ResourceSpecs, present: &Vec<String>) -> (r: Vec<String>)
    ensures
        forall|i: int|
            0 <= i < r@.len() ==> spec_nexus_gone(specs.nexuses@, present@, (#[trigger] r@[i])@),
        forall|j: int|
            0 <= j < specs.nexuses@.len() && ((#[trigger] specs.nexuses@[j]).status is Deleting
                || specs.nexuses@[j].status is Deleted) && !crate::msg::spec_id_in(
                present@,
                specs.nexuses@[j].uuid@,
            ) ==> crate::msg::spec_id_in(r@, specs.nexuses@[j].uuid@),
{
    let mut r: Vec<String> = Vec::new();
    let mut j: usize = 0;
    while j < specs.nexuses.len()
        invariant
            0 <= j <= specs.nexuses@.len(),
            forall|i: int|
                0 <= i < r@.len() ==> spec_nexus_gone(
                    specs.nexuses@,
                    present@,
                    (#[trigger] r@[i])@,
                ),
            forall|jj: int|
                0 <= jj < j && ((#[trigger] specs.nexuses@[jj]).status is Deleting
                    || specs.nexuses@[jj].status is Deleted) && !crate::msg::spec_id_in(
                    present@,
                    specs.nexuses@[jj].uuid@,
                ) ==> crate::msg::spec_id_in(r@, specs.nexuses@[jj].uuid@),
        decreases specs.nexuses@.len() - j,
    {
        let ghost r_before = r@;
        let gone = match specs.nexuses[j].status {
            crate::specs::SpecStatus::Deleting => true,
            crate::specs::SpecStatus::Deleted => true,
            _ => false,
        };
        if gone {
            let mut seen: bool = false;
            let mut k: usize = 0;
            while k < present.len()
                invariant
                    0 <= k <= present@.len(),
                    j < specs.nexuses@.len(),
                    seen ==> crate::msg::spec_id_in(present@, specs.nexuses@[j as int].uuid@),
                    !seen ==> forall|m: int|
                        0 <= m < k ==> present@[m]@ != specs.nexuses@[j as int].uuid@,
                decreases present@.len() - k,
            {
                if present[k] == specs.nexuses[j].uuid {
                    seen = true;
                }
                k = k + 1;
            }
            if !seen {
                r.push(specs.nexuses[j].uuid.clone());
                proof {
                    if crate::msg::spec_id_in(present@, specs.nexuses@[j as int].uuid@) {
                        let m = choose|m: int|
                            0 <= m < present@.len() && present@[m]@ == specs.nexuses@[
                                j as int
                            ].uuid@;
                        assert(false);
                    }
                    assert(spec_nexus_gone(
                        specs.nexuses@,
                        present@,
                        r@[r@.len() - 1]@,
                    ));
                    assert forall|i: int|
                        0 <= i < r@.len() implies spec_nexus_gone(
                        specs.nexuses@,
                        present@,
                        (#[trigger] r@[i])@,
                    ) by {
                        if i < r@.len() - 1 {
                            assert(r@[i] == r_before[i]);
                        }
                    }
                }
            }
        }
        proof {
            assert forall|jj: int|
                0 <= jj < j + 1 && ((#[trigger] specs.nexuses@[jj]).status is Deleting
                    || specs.nexuses@[jj].status is Deleted) && !crate::msg::spec_id_in(
                    present@,
                    specs.nexuses@[jj].uuid@,
                ) implies crate::msg::spec_id_in(r@, specs.nexuses@[jj].uuid@) by {
                if jj < j {
                    let w = choose|w: int|
                        0 <= w < r_before.len() && r_before[w]@ == specs.nexuses@[jj].uuid@;
                    assert(r@[w]@ == specs.nexuses@[jj].uuid@);
                }
            }
        }
        j = j + 1;
    }
    r
}

/// The replica garbage collector's pick: the uuids of managed replicas
/// that no volume and no nexus owns any more. They are eligible for
/// disown-and-destroy.
pub fn replica_garbage_candidates(specs: &ResourceSpecs) -> (r: Vec<String>)
    ensures
        forall|i: int|
            0 <= i < r@.len() ==> spec_replica_orphaned(specs.replicas@, (#[trigger] r@[i])@),
        forall|j: int|
            0 <= j < specs.replicas@.len() && (#[trigger] specs.replicas@[j]).managed
                && !specs.replicas@[j].owners.spec_is_owned() ==> crate::msg::spec_id_in(
                r@,
                specs.replicas@[j].uuid@,
            ),
{
    let mut r: Vec<String> = Vec::new();
    let mut j: usize = 0;
    while j < specs.replicas.len()
        invariant
            0 <= j <= specs.replicas@.len(),
            forall|i: int|
                0 <= i < r@.len() ==> spec_replica_orphaned(
                    specs.replicas@,
                    (#[trigger] r@[i])@,
                ),
            forall|jj: int|
                0 <= jj < j && (#[trigger] specs.replicas@[jj]).managed && !specs.replicas@[
                    jj
                ].owners.spec_is_owned() ==> crate::msg::spec_id_in(
                    r@,
                    specs.replicas@[jj].uuid@,
                ),
        decreases specs.replicas@.len() - j,
    {
        let ghost r_before = r@;
        if specs.replicas[j].managed && !specs.replicas[j].owners.is_owned() {
            r.push(specs.replicas[j].uuid.clone());
            proof {
                assert(spec_replica_orphaned(specs.replicas@, r@[r@.len() - 1]@));
                assert forall|i: int|
                    0 <= i < r@.len() implies spec_replica_orphaned(
                    specs.replicas@,
                    (#[trigger] r@[i])@,
                ) by {
                    if i < r@.len() - 1 {
                        assert(r@[i] == r_before[i]);
                    }
                }
            }
        }
        proof {
            assert forall|jj: int|
                0 <= jj < j + 1 && (#[trigger] specs.replicas@[jj]).managed && !specs.replicas@[
                    jj
                ].owners.spec_is_owned() implies crate::msg::spec_id_in(
                r@,
                specs.replicas@[jj].uuid@,
            ) by {
                if jj < j {
                    let w = choose|w: int|
                        0 <= w < r_before.len() && r_before[w]@ == specs.replicas@[jj].uuid@;
                    assert(r@[w]@ == specs.replicas@[jj].uuid@);
                }
            }
        }
        j = j + 1;
    }
    r
}

} // verus!
