//! The scheduler: given a nexus spec and the registry snapshot, pick the
//! replicas that are safe to reuse when the nexus must be recreated, in a
//! deterministic order. The persisted nexus-info record decides whether
//! all of them may be assembled at once or only one, to shut out
//! split-brain after an unclean shutdown.

use crate::ids::ReplicaId;
use crate::msg::Replica;
use crate::nexus_info::NexusInfo;
use crate::nexusspec::{NexusChild, NexusSpec};
use crate::nodes::{node_online, spec_node_online, NodeEntry};
use crate::registry::ResourceSpecs;
use crate::replica::ReplicaSpec;
use vstd::multiset::Multiset;
use vstd::prelude::*;

verus! {

/// Lexicographic order on id texts, by character code; total.
pub open spec fn spec_str_le(a: Seq<char>, b: Seq<char>) -> bool
    decreases a.len(),
{
    if a.len() == 0 {
        true
    } else if b.len() == 0 {
        false
    } else if a[0] == b[0] {
        spec_str_le(a.drop_first(), b.drop_first())
    } else {
        a[0] < b[0]
    }
}

/// The order is total.
pub proof fn lemma_str_le_total(a: Seq<char>, b: Seq<char>)
    ensures
        spec_str_le(a, b) || spec_str_le(b, a),
    decreases a.len(),
{
    if a.len() > 0 && b.len() > 0 {
        if a[0] == b[0] {
            lemma_str_le_total(a.drop_first(), b.drop_first());
        }
    }
}

/// The order is transitive.
pub proof fn lemma_str_le_trans(a: Seq<char>, b: Seq<char>, c: Seq<char>)
    requires
        spec_str_le(a, b),
        spec_str_le(b, c),
    ensures
        spec_str_le(a, c),
    decreases a.len(),
{
    if a.len() == 0 {
    } else {
        assert(b.len() > 0);
        if b[0] == c[0] && a[0] == b[0] {
            lemma_str_le_trans(a.drop_first(), b.drop_first(), c.drop_first());
        }
    }
}

/// Compare two id texts in the lexicographic order.
pub fn str_le(a: &String, b: &String) -> (r: bool)
    ensures
        r == spec_str_le(a@, b@),
{
    let sa = a.as_str();
    let sb = b.as_str();
    let na = sa.unicode_len();
    let nb = sb.unicode_len();
    let mut i: usize = 0;
    proof {
        assert(sa@.skip(0) =~= sa@);
        assert(sb@.skip(0) =~= sb@);
    }
    loop
        invariant
            0 <= i <= na,
            0 <= i <= nb,
            na == sa@.len(),
            nb == sb@.len(),
            sa@ == a@,
            sb@ == b@,
            spec_str_le(a@, b@) == spec_str_le(sa@.skip(i as int), sb@.skip(i as int)),
        ensures
            spec_str_le(a@, b@) == spec_str_le(sa@.skip(i as int), sb@.skip(i as int)),
            (i >= na) || (i >= nb) || (i < na && i < nb && sa@[i as int] != sb@[i as int]),
        decreases na - i,
    {
        if i >= na {
            break ;
        }
        if i >= nb {
            break ;
        }
        let ca = sa.get_char(i);
        let cb = sb.get_char(i);
        if ca != cb {
            break ;
        }
        proof {
            let ra = sa@.skip(i as int);
            let rb = sb@.skip(i as int);
            assert(ra.len() > 0 && rb.len() > 0);
            assert(ra[0] == sa@[i as int]);
            assert(rb[0] == sb@[i as int]);
            assert(ra.drop_first() =~= sa@.skip(i as int + 1));
            assert(rb.drop_first() =~= sb@.skip(i as int + 1));
        }
        i = i + 1;
    }
    if i >= na {
        proof {
            assert(sa@.skip(i as int).len() == 0);
        }
        true
    } else if i >= nb {
        proof {
            assert(sb@.skip(i as int).len() == 0);
            assert(sa@.skip(i as int).len() > 0);
        }
        false
    } else {
        let ca = sa.get_char(i);
        let cb = sb.get_char(i);
        proof {
            let ra = sa@.skip(i as int);
            let rb = sb@.skip(i as int);
            assert(ra[0] == sa@[i as int]);
            assert(rb[0] == sb@[i as int]);
            assert(ra.len() > 0 && rb.len() > 0);
        }
        ca < cb
    }
}

/// One candidate the scheduler picked: the replica's desired spec beside
/// its observed state.
#[derive(Debug)]
pub struct ChildItem {
    /// The replica's desired spec.
    pub item_spec: ReplicaSpec,
    /// The replica's observed state.
    pub item_state: Replica,
}

impl ChildItem {
    /// Build a candidate from a spec and the matching observed state.
    pub fn new(item_spec: ReplicaSpec, item_state: Replica) -> (r: Self)
        ensures
            r.item_spec == item_spec,
            r.item_state == item_state,
    {
        ChildItem { item_spec, item_state }
    }

    /// The replica's desired spec.
    pub fn spec(&self) -> (r: &ReplicaSpec)
        ensures
            r == &self.item_spec,
    {
        &self.item_spec
    }

    /// The replica's observed state.
    pub fn state(&self) -> (r: &Replica)
        ensures
            r == &self.item_state,
    {
        &self.item_state
    }
}

impl Clone for ChildItem {
    fn clone(&self) -> (r: Self)
        ensures
            r.item_spec.spec_eqv(self.item_spec),
            r.item_spec.uuid@ == self.item_spec.uuid@,
            r.item_state == self.item_state,
    {
        ChildItem { item_spec: self.item_spec.clone(), item_state: self.item_state.clone() }
    }
}

/// Candidate order: replicas whose size matches the nexus size come first,
/// ties broken by the replica uuid text.
pub open spec fn spec_item_le(nexus_size: u64, a: ChildItem, b: ChildItem) -> bool {
    let am = a.item_state.size == nexus_size;
    let bm = b.item_state.size == nexus_size;
    if am != bm {
        am
    } else {
        spec_str_le(a.item_spec.uuid@, b.item_spec.uuid@)
    }
}

/// The candidate order is total.
pub proof fn lemma_item_le_total(nexus_size: u64, a: ChildItem, b: ChildItem)
    ensures
        spec_item_le(nexus_size, a, b) || spec_item_le(nexus_size, b, a),
{
    lemma_str_le_total(a.item_spec.uuid@, b.item_spec.uuid@);
}

/// The candidate order is transitive.
pub proof fn lemma_item_le_trans(nexus_size: u64, a: ChildItem, b: ChildItem, c: ChildItem)
    requires
        spec_item_le(nexus_size, a, b),
        spec_item_le(nexus_size, b, c),
    ensures
        spec_item_le(nexus_size, a, c),
{
    let am = a.item_state.size == nexus_size;
    let bm = b.item_state.size == nexus_size;
    let cm = c.item_state.size == nexus_size;
    if am == bm && bm == cm {
        lemma_str_le_trans(a.item_spec.uuid@, b.item_spec.uuid@, c.item_spec.uuid@);
    }
}

/// Compare two candidates in the candidate order.
pub fn item_le(nexus_size: u64, a: &ChildItem, b: &ChildItem) -> (r: bool)
    ensures
        r == spec_item_le(nexus_size, *a, *b),
{
    let am = a.item_state.size == nexus_size;
    let bm = b.item_state.size == nexus_size;
    if am != bm {
        am
    } else {
        str_le(&a.item_spec.uuid, &b.item_spec.uuid)
    }
}

/// Whether the candidate list is sorted in the candidate order.
pub open spec fn spec_candidates_sorted(c: Seq<ChildItem>, nexus_size: u64) -> bool {
    forall|i: int, j: int| 0 <= i < j < c.len() ==> spec_item_le(nexus_size, c[i], c[j])
}

/// Sort candidates: same items, in the candidate order.
pub fn sort_candidates(items: Vec<ChildItem>, nexus_size: u64) -> (r: Vec<ChildItem>)
    ensures
        r@.to_multiset() == items@.to_multiset(),
        spec_candidates_sorted(r@, nexus_size),
{
    broadcast use vstd::seq_lib::group_to_multiset_ensures;

    let mut rest = items;
    let mut out: Vec<ChildItem> = Vec::new();
    proof {
        assert(out@.to_multiset().add(rest@.to_multiset()) =~= items@.to_multiset());
    }
    while rest.len() > 0
        invariant
            out@.to_multiset().add(rest@.to_multiset()) == items@.to_multiset(),
            spec_candidates_sorted(out@, nexus_size),
            forall|i: int, j: int|
                0 <= i < out@.len() && 0 <= j < rest@.len() ==> spec_item_le(
                    nexus_size,
                    out@[i],
                    rest@[j],
                ),
        decreases rest@.len(),
    {
        let mut m: usize = 0;
        let mut k: usize = 1;
        proof {
            lemma_item_le_total(nexus_size, rest@[0], rest@[0]);
        }
        while k < rest.len()
            invariant
                0 <= m < k <= rest@.len(),
                forall|j: int| 0 <= j < k ==> spec_item_le(nexus_size, rest@[m as int], rest@[j]),
            decreases rest@.len() - k,
        {
            if !item_le(nexus_size, &rest[m], &rest[k]) {
                proof {
                    lemma_item_le_total(nexus_size, rest@[m as int], rest@[k as int]);
                    assert forall|j: int| 0 <= j < k + 1 implies spec_item_le(
                        nexus_size,
                        rest@[k as int],
                        rest@[j],
                    ) by {
                        if j < k {
                            lemma_item_le_trans(
                                nexus_size,
                                rest@[k as int],
                                rest@[m as int],
                                rest@[j],
                            );
                        } else {
                            lemma_item_le_total(nexus_size, rest@[k as int], rest@[k as int]);
                        }
                    }
                }
                m = k;
            }
            k = k + 1;
        }
        let ghost rest_before = rest@;
        let ghost out_before = out@;
        let x = rest.remove(m);
        out.push(x);
        proof {
            broadcast use vstd::seq_lib::group_to_multiset_ensures;

            assert(rest_before[m as int] == x);
            assert(rest@ =~= rest_before.remove(m as int));
            assert(out@ =~= out_before.push(x));
            assert(out_before.push(x).to_multiset() =~= out_before.to_multiset().insert(x));
            assert(rest_before.remove(m as int).to_multiset() =~= rest_before.to_multiset()
                .remove(x));
            assert(rest_before.contains(x));
            assert(rest_before.to_multiset().count(x) > 0);
            assert(rest@.to_multiset().insert(x) =~= rest_before.to_multiset());
            assert(out@.to_multiset().add(rest@.to_multiset()) =~= items@.to_multiset());
            assert forall|i: int, j: int|
                0 <= i < j < out@.len() implies spec_item_le(nexus_size, out@[i], out@[j]) by {
                if j < out@.len() - 1 {
                    assert(out@[i] == out_before[i]);
                    assert(out@[j] == out_before[j]);
                } else {
                    assert(out@[j] == x);
                    assert(out@[i] == out_before[i]);
                }
            }
            assert forall|i: int, j: int|
                0 <= i < out@.len() && 0 <= j < rest@.len() implies spec_item_le(
                nexus_size,
                out@[i],
                rest@[j],
            ) by {
                let jj = if j < m { j } else { j + 1 };
                assert(rest@[j] == rest_before[jj]);
                if i < out@.len() - 1 {
                    assert(out@[i] == out_before[i]);
                } else {
                    assert(out@[i] == x);
                }
            }
        }
    }
    proof {
        broadcast use vstd::seq_lib::group_to_multiset_ensures;

        assert(rest@.to_multiset() =~= Multiset::<ChildItem>::empty());
        assert(out@.to_multiset() =~= items@.to_multiset());
    }
    out
}

/// The scheduler's answer: how a recreated nexus may be assembled. After an
/// unclean shutdown only one child may be brought up at first (`One`);
/// after a clean shutdown all candidates are safe (`All`).
#[derive(Debug)]
pub enum HealthyChildItems {
    /// Bring the nexus up with exactly one child, the first candidate, and
    /// let rebuild catch the rest.
    One(Option<NexusInfo>, Vec<ChildItem>),
    /// Safe to assemble with all candidates.
    All(Option<NexusInfo>, Vec<ChildItem>),
}

impl HealthyChildItems {
    /// The ordered candidate list.
    pub open spec fn spec_candidates(&self) -> Seq<ChildItem> {
        match self {
            HealthyChildItems::One(_, c) => c@,
            HealthyChildItems::All(_, c) => c@,
        }
    }

    /// The nexus-info record the answer was made from.
    pub open spec fn spec_info(&self) -> Option<NexusInfo> {
        match self {
            HealthyChildItems::One(i, _) => *i,
            HealthyChildItems::All(i, _) => *i,
        }
    }

    /// The candidates the nexus may be created with: the first alone under
    /// `One`, all of them under `All`.
    pub open spec fn spec_creation_candidates(&self) -> Seq<ChildItem> {
        match self {
            HealthyChildItems::One(_, c) => if c@.len() > 0 {
                c@.take(1)
            } else {
                c@
            },
            HealthyChildItems::All(_, c) => c@,
        }
    }

    /// The ordered candidate list.
    pub fn candidates(&self) -> (r: &Vec<ChildItem>)
        ensures
            r@ == self.spec_candidates(),
    {
        match self {
            HealthyChildItems::One(_, c) => c,
            HealthyChildItems::All(_, c) => c,
        }
    }

    /// The nexus-info record the answer was made from.
    pub fn nexus_info(&self) -> (r: &Option<NexusInfo>)
        ensures
            *r == self.spec_info(),
    {
        match self {
            HealthyChildItems::One(i, _) => i,
            HealthyChildItems::All(i, _) => i,
        }
    }
}

/// Whether some spec child is the replica with the given uuid.
pub open spec fn spec_has_replica_child(children: Seq<NexusChild>, uuid: Seq<char>) -> bool {
    exists|j: int|
        0 <= j < children.len() && (#[trigger] children[j].spec_replica_uuid()) is Some
            && children[j].spec_replica_uuid()->Some_0@ == uuid
}

/// Whether the replica with the given uuid can serve as a nexus child:
/// the registry knows its spec, a state was observed for it, its pool's
/// node is online, and the health record (when one exists) marks it
/// healthy.
pub open spec fn spec_candidate_ok(
    specs: ResourceSpecs,
    nodes: Seq<NodeEntry>,
    states: Seq<Replica>,
    info: Option<NexusInfo>,
    uuid: Seq<char>,
) -> bool {
    &&& spec_state_of(states, uuid) is Some
    &&& (specs.spec_replica_of(uuid) matches Some(rs) && (specs.spec_pool_of(rs.pool@)
        matches Some(ps) && spec_node_online(nodes, ps.node@)))
    &&& (info matches Some(inf) ==> inf.spec_child_healthy(uuid))
}

/// The first observed replica state with the given uuid.
pub open spec fn spec_state_of(states: Seq<Replica>, uuid: Seq<char>) -> Option<Replica>
    decreases states.len(),
{
    if states.len() == 0 {
        None
    } else if states[0].uuid@ == uuid {
        Some(states[0])
    } else {
        spec_state_of(states.drop_first(), uuid)
    }
}

/// Find the first observed replica state with the given uuid.
pub fn state_of<'a>(states: &'a Vec<Replica>, uuid: &ReplicaId) -> (r: Option<&'a Replica>)
    ensures
        r is Some <==> spec_state_of(states@, uuid@) is Some,
        r is Some ==> *r->Some_0 == spec_state_of(states@, uuid@)->Some_0,
{
    let ghost g = states@;
    proof {
        assert(g.skip(0) =~= g);
    }
    let mut i: usize = 0;
    while i < states.len()
        invariant
            0 <= i <= states@.len(),
            g == states@,
            spec_state_of(states@, uuid@) == spec_state_of(g.skip(i as int), uuid@),
        decreases states@.len() - i,
    {
        proof {
            assert(g.skip(i as int).len() > 0);
            assert(g.skip(i as int)[0] == g[i as int]);
            assert(g.skip(i as int).drop_first() =~= g.skip(i as int + 1));
        }
        if states[i].uuid == *uuid {
            return Some(&states[i]);
        }
        i = i + 1;
    }
    proof {
        assert(g.skip(states@.len() as int) =~= Seq::<Replica>::empty());
    }
    None
}

/// Return healthy replicas for a nexus recreate: the spec's replica
/// children that still qualify, ordered, wrapped in `One` after an unclean
/// shutdown and in `All` otherwise.
///
/// Scheduler safety: after an unclean shutdown the answer is `One`, so at
/// most one candidate is used to create the nexus; when the record says no
/// replica at all is healthy, the answer holds no candidate.
pub fn get_healthy_children(
    nexus: &NexusSpec,
    specs: &ResourceSpecs,
    nodes: &Vec<NodeEntry>,
    states: &Vec<Replica>,
    info: Option<&NexusInfo>,
) -> (h: HealthyChildItems)
    requires
        specs.wf(),
    ensures
        // the shape of the answer follows the clean-shutdown flag alone
        (h is One <==> (spec_info_of(info) matches Some(inf) && !inf.clean_shutdown)),
        // every candidate is a qualifying replica child of the spec,
        // carrying that replica's observed state
        forall|i: int|
            0 <= i < h.spec_candidates().len() ==> spec_candidate_ok(
                *specs,
                nodes@,
                states@,
                spec_info_of(info),
                #[trigger] h.spec_candidates()[i].item_spec.uuid@,
            ) && spec_has_replica_child(nexus.children@, h.spec_candidates()[i].item_spec.uuid@)
                && spec_state_of(states@, h.spec_candidates()[i].item_spec.uuid@) == Some(
                h.spec_candidates()[i].item_state,
            ),
        // every qualifying replica child of the spec yields a candidate
        forall|j: int|
            0 <= j < nexus.children@.len() && (#[trigger] nexus.children@[j].spec_replica_uuid())
                is Some && spec_candidate_ok(
                *specs,
                nodes@,
                states@,
                spec_info_of(info),
                nexus.children@[j].spec_replica_uuid()->Some_0@,
            ) ==> exists|i: int|
                0 <= i < h.spec_candidates().len() && h.spec_candidates()[i].item_spec.uuid@
                    == nexus.children@[j].spec_replica_uuid()->Some_0@,
        // the list is ordered
        spec_candidates_sorted(h.spec_candidates(), nexus.size),
        // a record without a single healthy replica yields no candidate
        (spec_info_of(info) matches Some(inf) && inf.spec_no_healthy_replicas()
            ==> h.spec_candidates().len() == 0),
{
    let mut picked: Vec<ChildItem> = Vec::new();
    let mut j: usize = 0;
    while j < nexus.children.len()
        invariant
            0 <= j <= nexus.children@.len(),
            specs.wf(),
            forall|i: int|
                0 <= i < picked@.len() ==> spec_candidate_ok(
                    *specs,
                    nodes@,
                    states@,
                    spec_info_of(info),
                    #[trigger] picked@[i].item_spec.uuid@,
                ) && spec_has_replica_child(nexus.children@, picked@[i].item_spec.uuid@)
                    && spec_state_of(states@, picked@[i].item_spec.uuid@) == Some(
                    picked@[i].item_state,
                ),
            forall|jj: int|
                0 <= jj < j && (#[trigger] nexus.children@[jj].spec_replica_uuid()) is Some
                    && spec_candidate_ok(
                    *specs,
                    nodes@,
                    states@,
                    spec_info_of(info),
                    nexus.children@[jj].spec_replica_uuid()->Some_0@,
                ) ==> exists|i: int|
                    0 <= i < picked@.len() && picked@[i].item_spec.uuid@ == nexus.children@[
                        jj
                    ].spec_replica_uuid()->Some_0@,
        decreases nexus.children@.len() - j,
    {
        let ghost picked_before = picked@;
        match nexus.children[j].as_replica() {
            Some(uuid_ref) => {
                let uuid = uuid_ref.clone();
                let healthy = match info {
                    Some(inf) => inf.child_healthy(&uuid),
                    None => true,
                };
                if healthy {
                    match state_of(states, &uuid) {
                        Some(state) => {
                            match specs.replica_index(&uuid) {
                                Some(ri) => {
                                    let rs = registry_replica_clone(specs, ri);
                                    match specs.pool_index(&rs.pool) {
                                        Some(pi) => {
                                            if node_online(nodes, &specs.pools[pi].node) {
                                                let item = ChildItem::new(rs, state.clone());
                                                picked.push(item);
                                                proof {
                                                    assert(picked@[picked@.len() - 1].item_spec
                                                        .uuid@ == uuid@);
                                                    assert(nexus.children@[j as int]
                                                        .spec_replica_uuid() is Some
                                                        && nexus.children@[
                                                        j as int
                                                    ].spec_replica_uuid()->Some_0@ == uuid@);
                                                    assert forall|i: int|
                                                        0 <= i < picked@.len() implies
                                                        spec_candidate_ok(
                                                        *specs,
                                                        nodes@,
                                                        states@,
                                                        spec_info_of(info),
                                                        #[trigger] picked@[i].item_spec.uuid@,
                                                    ) && spec_has_replica_child(
                                                        nexus.children@,
                                                        picked@[i].item_spec.uuid@,
                                                    ) && spec_state_of(
                                                        states@,
                                                        picked@[i].item_spec.uuid@,
                                                    ) == Some(picked@[i].item_state) by {
                                                        if i < picked@.len() - 1 {
                                                            assert(picked@[i]
                                                                == picked_before[i]);
                                                        } else {
                                                            assert(spec_has_replica_child(
                                                                nexus.children@,
                                                                picked@[i].item_spec.uuid@,
                                                            ));
                                                            assert(spec_state_of(
                                                                states@,
                                                                picked@[i].item_spec.uuid@,
                                                            ) == Some(picked@[i].item_state));
                                                        }
                                                    }
                                                }
                                            }
                                        },
                                        None => {},
                                    }
                                },
                                None => {},
                            }
                        },
                        None => {},
                    }
                }
            },
            None => {},
        }
        proof {
            assert forall|jj: int|
                0 <= jj < j + 1 && (#[trigger] nexus.children@[jj].spec_replica_uuid()) is Some
                    && spec_candidate_ok(
                    *specs,
                    nodes@,
                    states@,
                    spec_info_of(info),
                    nexus.children@[jj].spec_replica_uuid()->Some_0@,
                ) implies exists|i: int|
                0 <= i < picked@.len() && picked@[i].item_spec.uuid@ == nexus.children@[
                    jj
                ].spec_replica_uuid()->Some_0@ by {
                let u = nexus.children@[jj].spec_replica_uuid()->Some_0@;
                if jj < j {
                    let w = choose|w: int|
                        0 <= w < picked_before.len() && picked_before[w].item_spec.uuid@ == u;
                    assert(picked@[w].item_spec.uuid@ == u);
                }
            }
        }
        j = j + 1;
    }
    let sorted = sort_candidates(picked, nexus.size);
    proof {
        broadcast use vstd::seq_lib::group_to_multiset_ensures;

        assert forall|i: int| 0 <= i < sorted@.len() implies spec_candidate_ok(
            *specs,
            nodes@,
            states@,
            spec_info_of(info),
            #[trigger] sorted@[i].item_spec.uuid@,
        ) && spec_has_replica_child(nexus.children@, sorted@[i].item_spec.uuid@)
            && spec_state_of(states@, sorted@[i].item_spec.uuid@) == Some(
            sorted@[i].item_state,
        ) by {
            assert(sorted@.to_multiset().count(sorted@[i]) > 0);
            assert(picked@.contains(sorted@[i]));
            let w = choose|w: int| 0 <= w < picked@.len() && picked@[w] == sorted@[i];
            assert(spec_has_replica_child(nexus.children@, picked@[w].item_spec.uuid@));
            assert(spec_state_of(states@, picked@[w].item_spec.uuid@) == Some(
                picked@[w].item_state,
            ));
        }
        assert forall|jj: int|
            0 <= jj < nexus.children@.len() && (#[trigger] nexus.children@[
                jj
            ].spec_replica_uuid()) is Some && spec_candidate_ok(
                *specs,
                nodes@,
                states@,
                spec_info_of(info),
                nexus.children@[jj].spec_replica_uuid()->Some_0@,
            ) implies exists|i: int|
            0 <= i < sorted@.len() && sorted@[i].item_spec.uuid@ == nexus.children@[
                jj
            ].spec_replica_uuid()->Some_0@ by {
            let u = nexus.children@[jj].spec_replica_uuid()->Some_0@;
            let w = choose|w: int| 0 <= w < picked@.len() && picked@[w].item_spec.uuid@ == u;
            assert(picked@.to_multiset().count(picked@[w]) > 0);
            assert(sorted@.contains(picked@[w]));
            let v = choose|v: int| 0 <= v < sorted@.len() && sorted@[v] == picked@[w];
            assert(sorted@[v].item_spec.uuid@ == u);
        }
        if spec_info_of(info) matches Some(inf) && inf.spec_no_healthy_replicas() {
            if sorted@.len() > 0 {
                assert(spec_candidate_ok(
                    *specs,
                    nodes@,
                    states@,
                    spec_info_of(info),
                    sorted@[0].item_spec.uuid@,
                ));
            }
        }
    }
    let unclean = match info {
        Some(inf) => !inf.clean_shutdown,
        None => false,
    };
    let info_owned = match info {
        Some(inf) => Some(inf.clone()),
        None => None,
    };
    proof {
        match info {
            Some(inf) => {
                assert(spec_info_of(info) matches Some(x) && x.clean_shutdown
                    == inf.clean_shutdown && x.children@ == inf.children@);
            },
            None => {},
        }
    }
    if unclean {
        HealthyChildItems::One(info_owned, sorted)
    } else {
        HealthyChildItems::All(info_owned, sorted)
    }
}

/// The record handed to the scheduler, as a spec-level value.
pub open spec fn spec_info_of(info: Option<&NexusInfo>) -> Option<NexusInfo> {
    match info {
        Some(i) => Some(*i),
        None => None,
    }
}

/// Clone the replica spec at a registry index.
fn registry_replica_clone(specs: &ResourceSpecs, i: usize) -> (r: ReplicaSpec)
    requires
        i < specs.replicas@.len(),
    ensures
        r.spec_eqv(specs.replicas@[i as int]),
        r.uuid@ == specs.replicas@[i as int].uuid@,
        r.pool@ == specs.replicas@[i as int].pool@,
    {
    specs.replicas[i].clone()
}

/// Get all usable healthy child replicas for a nexus recreate.
pub fn get_healthy_nexus_children(
    nexus: &NexusSpec,
    specs: &ResourceSpecs,
    nodes: &Vec<NodeEntry>,
    states: &Vec<Replica>,
    info: Option<&NexusInfo>,
) -> (h: HealthyChildItems)
    requires
        specs.wf(),
    ensures
        (h is One <==> (spec_info_of(info) matches Some(inf) && !inf.clean_shutdown)),
        spec_candidates_sorted(h.spec_candidates(), nexus.size),
        (spec_info_of(info) matches Some(inf) && inf.spec_no_healthy_replicas()
            ==> h.spec_candidates().len() == 0),
        h.spec_creation_candidates().len() <= h.spec_candidates().len(),
        h is One ==> h.spec_creation_candidates().len() <= 1,
        forall|i: int|
            0 <= i < h.spec_candidates().len() ==> spec_candidate_ok(
                *specs,
                nodes@,
                states@,
                spec_info_of(info),
                #[trigger] h.spec_candidates()[i].item_spec.uuid@,
            ) && spec_has_replica_child(nexus.children@, h.spec_candidates()[i].item_spec.uuid@)
                && spec_state_of(states@, h.spec_candidates()[i].item_spec.uuid@) == Some(
                h.spec_candidates()[i].item_state,
            ),
        forall|j: int|
            0 <= j < nexus.children@.len() && (#[trigger] nexus.children@[j].spec_replica_uuid())
                is Some && spec_candidate_ok(
                *specs,
                nodes@,
                states@,
                spec_info_of(info),
                nexus.children@[j].spec_replica_uuid()->Some_0@,
            ) ==> exists|i: int|
                0 <= i < h.spec_candidates().len() && h.spec_candidates()[i].item_spec.uuid@
                    == nexus.children@[j].spec_replica_uuid()->Some_0@,
{
    get_healthy_children(nexus, specs, nodes, states, info)
}

/// Scheduler safety: a `One` answer creates the nexus with at most one
/// child, and a record without a single healthy replica leaves nothing to
/// create with at all.
pub proof fn lemma_scheduler_safety(h: HealthyChildItems, info: Option<NexusInfo>)
    requires
        h.spec_info() == info,
        (info matches Some(inf) && inf.spec_no_healthy_replicas()) ==> h.spec_candidates().len()
            == 0,
    ensures
        h is One ==> h.spec_creation_candidates().len() <= 1,
        (info matches Some(inf) && inf.spec_no_healthy_replicas())
            ==> h.spec_creation_candidates().len() == 0,
{
}

} // verus!
