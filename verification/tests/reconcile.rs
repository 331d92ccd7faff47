//! Tests of the scheduler and the nexus reconcilers against the model of
//! the data plane.

use storctl::child::{Child, ChildState, ChildUri};
use storctl::msg::{Nexus, NexusStatus, Protocol, Replica, ReplicaOwners, ReplicaStatus};
use storctl::nexus_info::{NexusChildInfo, NexusInfo};
use storctl::nexusspec::{NexusChild, NexusSpec, ReplicaUri};
use storctl::nodes::NodeEntry;
use storctl::reconciler::{
    faulted_children_remover, faulted_nexus_remover, fixup_nexus_protocol,
    missing_children_remover, nexus_garbage_candidates, nexus_reconciler,
    replica_garbage_candidates, unknown_children_remover, NexusReconciler, PollContext,
    PollTimer, PollerState,
};
use storctl::registry::ResourceSpecs;
use storctl::replica::ReplicaSpec;
use storctl::scheduling::{get_healthy_nexus_children, HealthyChildItems};
use storctl::sequencer::OperationSequence;
use storctl::specs::SpecStatus;

fn uuid(n: u8) -> String {
    format!("00000000-0000-0000-0000-0000000000{:02x}", n)
}

fn child_uri(n: u8) -> String {
    format!("nvmf://n0/replica?uuid={}", uuid(n))
}

fn replica_spec(n: u8) -> ReplicaSpec {
    ReplicaSpec {
        name: uuid(n),
        uuid: uuid(n),
        size: 100,
        pool: "p0".to_string(),
        share: Protocol::Nvmf,
        thin: false,
        status: SpecStatus::Created(ReplicaStatus::Online),
        managed: true,
        owners: ReplicaOwners::new(None, vec![uuid(0x10)]),
        sequencer: OperationSequence::new(uuid(n)),
        operation: None,
    }
}

fn replica_state(n: u8) -> Replica {
    Replica {
        node: "n0".to_string(),
        name: uuid(n),
        uuid: uuid(n),
        pool: "p0".to_string(),
        thin: false,
        size: 100,
        share: Protocol::Nvmf,
        uri: child_uri(n),
        status: ReplicaStatus::Online,
    }
}

fn nexus_spec_with(children: Vec<NexusChild>) -> NexusSpec {
    NexusSpec {
        uuid: uuid(0x10),
        node: "n0".to_string(),
        children,
        size: 100,
        status: SpecStatus::Created(NexusStatus::Online),
        share: Protocol::Nvmf,
        managed: true,
        owner: None,
        sequencer: OperationSequence::new(uuid(0x10)),
        operation: None,
    }
}

fn spec_child(n: u8) -> NexusChild {
    NexusChild::Replica(ReplicaUri::new(&uuid(n), &ChildUri::new(child_uri(n))))
}

fn observed_child(n: u8, state: ChildState) -> Child {
    Child { uri: ChildUri::new(child_uri(n)), state, rebuild_progress: None }
}

fn observed_nexus(children: Vec<Child>, status: NexusStatus, share: Protocol) -> Nexus {
    Nexus {
        node: "n0".to_string(),
        uuid: uuid(0x10),
        size: 100,
        status,
        children,
        device_uri: String::new(),
        rebuilds: 0,
        share,
    }
}

fn world() -> (ResourceSpecs, Vec<NodeEntry>, Vec<Replica>) {
    let mut specs = ResourceSpecs::new();
    specs.insert_replica(replica_spec(1));
    specs.insert_replica(replica_spec(2));
    specs.insert_pool(storctl::pool::PoolSpec::from_request(&storctl::msg::CreatePool {
        node: "n0".to_string(),
        id: "p0".to_string(),
        disks: vec![],
        labels: None,
    }));
    specs.insert_nexus(nexus_spec_with(vec![spec_child(1), spec_child(2)]));
    let nodes = vec![NodeEntry::new("n0".to_string(), 0)];
    let states = vec![replica_state(1), replica_state(2)];
    (specs, nodes, states)
}

#[test]
fn poll_timer_paces() {
    let mut timer = PollTimer::from(3);
    assert!(timer.poll());
    assert!(!timer.poll());
    assert!(!timer.poll());
    assert!(timer.poll());
}

#[test]
fn faulted_children_removed_from_degraded_nexus() {
    let mut spec = nexus_spec_with(vec![spec_child(1), spec_child(2)]);
    let mut state = observed_nexus(
        vec![
            observed_child(1, ChildState::Online),
            observed_child(2, ChildState::Faulted),
        ],
        NexusStatus::Degraded,
        Protocol::Nvmf,
    );
    assert!(faulted_children_remover(&mut spec, &mut state).is_ok());
    assert_eq!(state.children.len(), 1);
    assert_eq!(state.children[0].uri.as_string(), &child_uri(1));
    assert_eq!(spec.children.len(), 1);
    assert_eq!(spec.children[0].uri().as_string(), &child_uri(1));
}

#[test]
fn faulted_last_child_is_kept() {
    // a degraded nexus with a single child keeps it, faulted or not
    let mut spec = nexus_spec_with(vec![spec_child(2)]);
    let mut state = observed_nexus(
        vec![observed_child(2, ChildState::Faulted)],
        NexusStatus::Degraded,
        Protocol::Nvmf,
    );
    assert!(faulted_children_remover(&mut spec, &mut state).is_ok());
    assert_eq!(state.children.len(), 1);
    assert_eq!(spec.children.len(), 1);
}

#[test]
fn unknown_children_removed_from_state_only() {
    let spec = nexus_spec_with(vec![spec_child(1)]);
    let mut state = observed_nexus(
        vec![
            observed_child(1, ChildState::Online),
            observed_child(3, ChildState::Online),
        ],
        NexusStatus::Online,
        Protocol::Nvmf,
    );
    assert!(unknown_children_remover(&spec, &mut state).is_ok());
    assert_eq!(state.children.len(), 1);
    assert_eq!(state.children[0].uri.as_string(), &child_uri(1));
}

#[test]
fn missing_children_removed_from_spec() {
    let mut spec = nexus_spec_with(vec![spec_child(1), spec_child(2)]);
    let state = observed_nexus(
        vec![observed_child(1, ChildState::Online)],
        NexusStatus::Degraded,
        Protocol::Nvmf,
    );
    assert!(missing_children_remover(&mut spec, &state).is_ok());
    assert_eq!(spec.children.len(), 1);
    assert_eq!(spec.children[0].uri().as_string(), &child_uri(1));
}

#[test]
fn share_fixup_both_directions() {
    // forced observed share `None`: one tick shares it back
    let spec = nexus_spec_with(vec![spec_child(1)]);
    let mut state = observed_nexus(
        vec![observed_child(1, ChildState::Online)],
        NexusStatus::Online,
        Protocol::Unshared,
    );
    assert!(fixup_nexus_protocol(&spec, &mut state).is_ok());
    assert_eq!(state.share, Protocol::Nvmf);

    // the opposite direction unshares first, then re-shares
    let mut unshared_spec = nexus_spec_with(vec![spec_child(1)]);
    unshared_spec.share = Protocol::Unshared;
    let mut state = observed_nexus(
        vec![observed_child(1, ChildState::Online)],
        NexusStatus::Online,
        Protocol::Nvmf,
    );
    assert!(fixup_nexus_protocol(&unshared_spec, &mut state).is_ok());
    assert_eq!(state.share, Protocol::Unshared);
}

#[test]
fn missing_nexus_recreated_within_one_pass() {
    // the nexus is gone; one reconcile pass recreates it on its node with
    // the scheduled healthy replicas and the spec's share protocol, and
    // leaves the persisted spec untouched
    let (specs, nodes, states) = world();
    let mut spec = specs.nexuses[0].clone();
    let info = NexusInfo {
        clean_shutdown: true,
        children: vec![
            NexusChildInfo { uuid: uuid(1), healthy: true },
            NexusChildInfo { uuid: uuid(2), healthy: true },
        ],
    };
    let (observed, result) =
        nexus_reconciler(&mut spec, None, &specs, &nodes, &states, Some(&info));
    assert!(result.is_ok());
    let nexus = observed.expect("the nexus was recreated");
    assert_eq!(nexus.node, "n0");
    assert_eq!(nexus.uuid, uuid(0x10));
    assert_eq!(nexus.children.len(), 2);
    assert_eq!(nexus.share, Protocol::Nvmf);
    // the spec is not modified by the recreate
    assert_eq!(spec.children.len(), 2);
    for (sc, oc) in spec.children.iter().zip(nexus.children.iter()) {
        assert_eq!(sc.uri().as_string(), oc.uri.as_string());
    }
}

#[test]
fn unclean_shutdown_recreates_with_one_child() {
    let (specs, nodes, states) = world();
    let mut spec = specs.nexuses[0].clone();
    let info = NexusInfo {
        clean_shutdown: false,
        children: vec![
            NexusChildInfo { uuid: uuid(1), healthy: true },
            NexusChildInfo { uuid: uuid(2), healthy: true },
        ],
    };
    let (observed, result) =
        nexus_reconciler(&mut spec, None, &specs, &nodes, &states, Some(&info));
    assert!(result.is_ok());
    let nexus = observed.expect("the nexus was recreated");
    assert_eq!(nexus.children.len(), 1);
    // the spec keeps both children; the next pass reconciles the gap
    assert_eq!(spec.children.len(), 2);
}

#[test]
fn no_healthy_replicas_leaves_nexus_missing() {
    let (specs, nodes, states) = world();
    let mut spec = specs.nexuses[0].clone();
    let info = NexusInfo {
        clean_shutdown: false,
        children: vec![
            NexusChildInfo { uuid: uuid(1), healthy: false },
            NexusChildInfo { uuid: uuid(2), healthy: false },
        ],
    };
    let (observed, result) =
        nexus_reconciler(&mut spec, None, &specs, &nodes, &states, Some(&info));
    assert!(result.is_ok());
    assert!(observed.is_none());
    assert_eq!(spec.children.len(), 2);
}

#[test]
fn divergent_pair_converges_in_one_pass() {
    // spec says two children shared over nvmf; observed has one spec
    // child, one unknown child and the wrong protocol
    let (specs, nodes, states) = world();
    let mut spec = specs.nexuses[0].clone();
    let state = observed_nexus(
        vec![
            observed_child(1, ChildState::Online),
            observed_child(3, ChildState::Online),
        ],
        NexusStatus::Online,
        Protocol::Unshared,
    );
    let (observed, result) =
        nexus_reconciler(&mut spec, Some(state), &specs, &nodes, &states, None);
    assert!(result.is_ok());
    let nexus = observed.expect("the nexus stays");
    assert_eq!(nexus.share, spec.share);
    let spec_uris: Vec<&String> = spec.children.iter().map(|c| c.uri().as_string()).collect();
    let obs_uris: Vec<&String> = nexus.children.iter().map(|c| c.uri.as_string()).collect();
    assert_eq!(spec_uris, obs_uris);
    assert_eq!(obs_uris, vec![&child_uri(1)]);
}

#[test]
fn scheduler_safety() {
    let (specs, nodes, states) = world();
    let nexus = &specs.nexuses[0];

    // an unclean shutdown yields `One`: at most one child to create with
    let unclean = NexusInfo {
        clean_shutdown: false,
        children: vec![
            NexusChildInfo { uuid: uuid(1), healthy: true },
            NexusChildInfo { uuid: uuid(2), healthy: true },
        ],
    };
    match get_healthy_nexus_children(nexus, &specs, &nodes, &states, Some(&unclean)) {
        HealthyChildItems::One(_, c) => assert_eq!(c.len(), 2),
        HealthyChildItems::All(_, _) => panic!("an unclean shutdown must yield One"),
    }

    // a record with no healthy replica yields no candidate at all
    let nothing = NexusInfo {
        clean_shutdown: false,
        children: vec![
            NexusChildInfo { uuid: uuid(1), healthy: false },
            NexusChildInfo { uuid: uuid(2), healthy: false },
        ],
    };
    match get_healthy_nexus_children(nexus, &specs, &nodes, &states, Some(&nothing)) {
        HealthyChildItems::One(_, c) => assert!(c.is_empty()),
        HealthyChildItems::All(_, _) => panic!("an unclean shutdown must yield One"),
    }

    // a clean shutdown yields `All`, candidates ordered by uuid
    let clean = NexusInfo {
        clean_shutdown: true,
        children: vec![
            NexusChildInfo { uuid: uuid(1), healthy: true },
            NexusChildInfo { uuid: uuid(2), healthy: true },
        ],
    };
    match get_healthy_nexus_children(nexus, &specs, &nodes, &states, Some(&clean)) {
        HealthyChildItems::All(_, c) => {
            assert_eq!(c.len(), 2);
            assert_eq!(c[0].spec().uuid, uuid(1));
            assert_eq!(c[1].spec().uuid, uuid(2));
        }
        HealthyChildItems::One(_, _) => panic!("a clean shutdown must yield All"),
    }
}

#[test]
fn scheduler_skips_offline_nodes() {
    let (specs, mut nodes, states) = world();
    nodes[0].on_missed_response();
    let nexus = &specs.nexuses[0];
    match get_healthy_nexus_children(nexus, &specs, &nodes, &states, None) {
        HealthyChildItems::All(_, c) => assert!(c.is_empty()),
        HealthyChildItems::One(_, _) => panic!("no record means All"),
    }
}

#[test]
fn faulted_nexus_removed_when_candidates_return() {
    let spec = nexus_spec_with(vec![spec_child(1)]);
    let mut observed = Some(observed_nexus(
        vec![observed_child(1, ChildState::Faulted)],
        NexusStatus::Faulted,
        Protocol::Nvmf,
    ));
    assert!(faulted_nexus_remover(&spec, &mut observed, 1, true).is_ok());
    assert!(observed.is_none());

    // with no healthy candidate the faulted nexus stays
    let mut kept = Some(observed_nexus(
        vec![observed_child(1, ChildState::Faulted)],
        NexusStatus::Faulted,
        Protocol::Nvmf,
    ));
    assert!(faulted_nexus_remover(&spec, &mut kept, 0, true).is_ok());
    assert!(kept.is_some());
}

#[test]
fn garbage_collection_picks() {
    let mut specs = ResourceSpecs::new();
    let mut deleting = nexus_spec_with(vec![]);
    deleting.status = SpecStatus::Deleting;
    specs.insert_nexus(deleting);

    // the nexus is gone from the data plane: eligible
    let picks = nexus_garbage_candidates(&specs, &vec![]);
    assert_eq!(picks, vec![uuid(0x10)]);

    // the nexus is still reported: kept
    let picks = nexus_garbage_candidates(&specs, &vec![uuid(0x10)]);
    assert!(picks.is_empty());

    // an orphaned managed replica is eligible for disown-and-destroy
    let mut orphan = replica_spec(1);
    orphan.owners = ReplicaOwners::new_disown_all();
    specs.insert_replica(orphan);
    specs.insert_replica(replica_spec(2));
    let picks = replica_garbage_candidates(&specs);
    assert_eq!(picks, vec![uuid(1)]);
}

#[test]
fn replica_disown_releases_owners() {
    let mut owners = ReplicaOwners::new(Some(uuid(0x20)), vec![uuid(0x10), uuid(0x11)]);
    assert!(owners.is_owned());
    let disowners = ReplicaOwners::new(Some(uuid(0x20)), vec![uuid(0x10)]);
    owners.disown(&disowners);
    assert!(owners.volume().is_none());
    assert_eq!(owners.nexuses(), &vec![uuid(0x11)]);
    let rest = ReplicaOwners::new(None, vec![uuid(0x11)]);
    owners.disown(&rest);
    assert!(!owners.is_owned());
}

#[test]
fn offline_node_defers_recreate() {
    // the nexus is gone but its node is not online: the pass logs and
    // skips, leaving everything as it was
    let (specs, mut nodes, states) = world();
    nodes[0].on_missed_response();
    let mut spec = specs.nexuses[0].clone();
    let (observed, result) = nexus_reconciler(&mut spec, None, &specs, &nodes, &states, None);
    assert!(result.is_ok());
    assert!(observed.is_none());
    assert_eq!(spec.children.len(), 2);
}

#[test]
fn unsupported_share_protocol_stays_unshared() {
    // a spec that asks for a protocol the nexus cannot serve is the one
    // divergence a pass cannot close: the nexus is left unshared
    let mut spec = nexus_spec_with(vec![spec_child(1)]);
    spec.share = storctl::msg::Protocol::Nbd;
    let mut state = observed_nexus(
        vec![observed_child(1, ChildState::Online)],
        NexusStatus::Online,
        Protocol::Nvmf,
    );
    assert!(fixup_nexus_protocol(&spec, &mut state).is_ok());
    assert_eq!(state.share, Protocol::Unshared);
}

#[test]
fn poll_reconciles_eligible_and_skips_the_rest() {
    // one eligible nexus with a divergent observed state, one spec owned
    // by a volume that the loop must not touch
    let (specs, nodes, states) = world();
    let mut owned_spec = nexus_spec_with(vec![spec_child(1)]);
    owned_spec.uuid = uuid(0x11);
    owned_spec.owner = Some(uuid(0x20));
    owned_spec.sequencer = OperationSequence::new(uuid(0x11));
    let mut context = PollContext {
        specs,
        nodes,
        replica_states: states,
        nexus_states: vec![(
            uuid(0x10),
            Some(observed_nexus(
                vec![
                    observed_child(1, ChildState::Online),
                    observed_child(3, ChildState::Online),
                ],
                NexusStatus::Online,
                Protocol::Unshared,
            )),
        )],
        infos: vec![],
    };
    assert!(context.specs.insert_nexus(owned_spec));

    let mut reconciler = NexusReconciler::new();
    assert!(matches!(reconciler.poll(&mut context), Ok(PollerState::Idle)));

    // the eligible nexus was reconciled: unknown child gone, share fixed
    let entry = &context.nexus_states[0];
    let nexus = entry.1.as_ref().expect("the nexus stays");
    assert_eq!(nexus.share, Protocol::Nvmf);
    assert_eq!(nexus.children.len(), 1);
    // the volume-owned spec was left exactly as it was
    assert_eq!(context.specs.nexuses[1].uuid, uuid(0x11));
    assert_eq!(context.specs.nexuses[1].children.len(), 1);
    assert!(context.specs.nexuses[1].owner.is_some());

    // a held sequencer defers the whole poll with Busy
    assert!(context.specs.nexuses[0]
        .sequencer
        .try_acquire(storctl::sequencer::OperationMode::Exclusive));
    assert!(matches!(reconciler.poll(&mut context), Ok(PollerState::Busy)));
    context.specs.nexuses[0]
        .sequencer
        .release(storctl::sequencer::OperationMode::Exclusive);
}
