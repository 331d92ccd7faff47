//! Pool types that are saved to the persistent store, and the transaction
//! methods through which the executor drives a pool mutation.

use crate::ids::{NodeId, PoolDeviceUri, PoolId};
use crate::msg;
use crate::msg::{clone_labels, clone_string_vec, CreatePool, PoolStatus};
use crate::sequencer::{OperationSequence, SequenceState};
use crate::specs::{store_key, SpecStatus, StorableObjectType};
use vstd::prelude::*;

verus! {

/// Status of a pool spec.
pub type PoolSpecStatus = SpecStatus<PoolStatus>;

/// Whether the label list holds the pair `(k, v)`.
pub open spec fn spec_label_in(l: Seq<(String, String)>, k: Seq<char>, v: Seq<char>) -> bool {
    exists|i: int| 0 <= i < l.len() && l[i].0@ == k && l[i].1@ == v
}

/// Whether every pair of `a` occurs in `b`.
pub open spec fn spec_label_set_sub(a: Seq<(String, String)>, b: Seq<(String, String)>) -> bool {
    forall|i: int| 0 <= i < a.len() ==> spec_label_in(b, (#[trigger] a[i]).0@, a[i].1@)
}

/// Whether two optional label lists carry the same label pairs, in any
/// order: the comparison has map semantics, as the labels are a map.
pub open spec fn spec_labels_eqv(
    a: Option<Vec<(String, String)>>,
    b: Option<Vec<(String, String)>>,
) -> bool {
    &&& (a is Some <==> b is Some)
    &&& (a matches Some(la) ==> (b matches Some(lb) && spec_label_set_sub(la@, lb@)
        && spec_label_set_sub(lb@, la@)))
}

/// Label lists with elementwise equal texts carry the same pairs.
pub proof fn lemma_labels_eqv_of_deep(
    a: Option<Vec<(String, String)>>,
    b: Option<Vec<(String, String)>>,
)
    requires
        a.deep_view() == b.deep_view(),
    ensures
        spec_labels_eqv(a, b),
{
    match (a, b) {
        (Some(la), Some(lb)) => {
            assert(la.deep_view() == lb.deep_view());
            assert(la@.len() == lb@.len()) by {
                assert(la.deep_view().len() == lb.deep_view().len());
            }
            assert forall|i: int| 0 <= i < la@.len() implies spec_label_in(
                lb@,
                (#[trigger] la@[i]).0@,
                la@[i].1@,
            ) by {
                assert(la.deep_view()[i] == lb.deep_view()[i]);
                assert(la.deep_view()[i] == (la@[i].0@, la@[i].1@));
                assert(lb.deep_view()[i] == (lb@[i].0@, lb@[i].1@));
                assert(lb@[i].0@ == la@[i].0@ && lb@[i].1@ == la@[i].1@);
            }
            assert forall|i: int| 0 <= i < lb@.len() implies spec_label_in(
                la@,
                (#[trigger] lb@[i]).0@,
                lb@[i].1@,
            ) by {
                assert(la.deep_view()[i] == lb.deep_view()[i]);
                assert(la.deep_view()[i] == (la@[i].0@, la@[i].1@));
                assert(lb.deep_view()[i] == (lb@[i].0@, lb@[i].1@));
                assert(la@[i].0@ == lb@[i].0@ && la@[i].1@ == lb@[i].1@);
            }
        },
        (None, None) => {},
        (Some(la), None) => {
            assert(a.deep_view() is Some && b.deep_view() is None);
        },
        (None, Some(lb)) => {
            assert(a.deep_view() is None && b.deep_view() is Some);
        },
    }
}

/// The same-pairs relation is transitive.
pub proof fn lemma_labels_eqv_trans(
    a: Option<Vec<(String, String)>>,
    b: Option<Vec<(String, String)>>,
    c: Option<Vec<(String, String)>>,
)
    requires
        spec_labels_eqv(a, b),
        spec_labels_eqv(b, c),
    ensures
        spec_labels_eqv(a, c),
{
    match (a, b, c) {
        (Some(la), Some(lb), Some(lc)) => {
            assert forall|i: int| 0 <= i < la@.len() implies spec_label_in(
                lc@,
                (#[trigger] la@[i]).0@,
                la@[i].1@,
            ) by {
                let w = choose|w: int|
                    0 <= w < lb@.len() && lb@[w].0@ == la@[i].0@ && lb@[w].1@ == la@[i].1@;
                assert(spec_label_in(lc@, lb@[w].0@, lb@[w].1@));
            }
            assert forall|i: int| 0 <= i < lc@.len() implies spec_label_in(
                la@,
                (#[trigger] lc@[i]).0@,
                lc@[i].1@,
            ) by {
                let w = choose|w: int|
                    0 <= w < lb@.len() && lb@[w].0@ == lc@[i].0@ && lb@[w].1@ == lc@[i].1@;
                assert(spec_label_in(la@, lb@[w].0@, lb@[w].1@));
            }
        },
        _ => {},
    }
}

/// A pool as the store sees it: its desired spec beside its last observed
/// state, either of which may be missing.
#[derive(Debug)]
pub struct Pool {
    /// Current state of the pool.
    pub state: Option<PoolState>,
    /// Desired pool specification.
    pub spec: Option<PoolSpec>,
}

/// Runtime state of the pool, as the io-engine reported it.
#[derive(Debug)]
pub struct PoolState {
    /// Pool information returned by the io-engine.
    pub pool: msg::PoolState,
}

impl Clone for PoolState {
    fn clone(&self) -> (r: Self)
        ensures
            r.pool.spec_eqv(self.pool),
    {
        PoolState { pool: self.pool.clone() }
    }
}

impl From<msg::PoolState> for PoolState {
    /// Wrap an observed pool state for the store.
    fn from(pool: msg::PoolState) -> (r: Self) {
        PoolState { pool }
    }
}

impl vstd::std_specs::convert::FromSpecImpl<msg::PoolState> for PoolState {
    open spec fn obeys_from_spec() -> bool {
        true
    }

    open spec fn from_spec(pool: msg::PoolState) -> Self {
        PoolState { pool }
    }
}

impl PoolState {
    /// Id of the pool this state belongs to.
    pub fn uuid(&self) -> (r: &PoolId)
        ensures
            r@ == self.pool.id@,
    {
        &self.pool.id
    }
}

/// Record of one pool operation in flight: the operation and, once the
/// data-plane call concluded, its result.
#[derive(Clone, Copy, Debug, PartialEq, Eq, Structural)]
pub struct PoolOperationState {
    /// Record of the operation.
    pub operation: PoolOperation,
    /// Result of the operation.
    pub result: Option<bool>,
}

/// The pool operations the executor can drive.
#[derive(Clone, Copy, Debug, PartialEq, Eq, Structural)]
pub enum PoolOperation {
    Create,
    Destroy,
}

/// Desired state of a pool.
#[derive(Debug)]
pub struct PoolSpec {
    /// Id of the io-engine instance that hosts the pool.
    pub node: NodeId,
    /// Id of the pool.
    pub id: PoolId,
    /// Absolute disk paths claimed by the pool.
    pub disks: Vec<PoolDeviceUri>,
    /// Status of the pool.
    pub status: PoolSpecStatus,
    /// Labels to be set on the pool.
    pub labels: Option<Vec<(String, String)>>,
    /// Update in progress; runtime only, never persisted.
    pub sequencer: OperationSequence,
    /// Record of the operation in progress.
    pub operation: Option<PoolOperationState>,
}

impl PoolSpec {
    /// Whether two pool specs carry the same persisted content: everything
    /// but the runtime-only sequencer.
    pub open spec fn spec_eqv(self, other: PoolSpec) -> bool {
        &&& self.node == other.node
        &&& self.id == other.id
        &&& self.disks@ == other.disks@
        &&& self.status == other.status
        &&& (self.labels is Some <==> other.labels is Some)
        &&& (self.labels is Some ==> self.labels->Some_0@ == other.labels->Some_0@)
        &&& self.operation == other.operation
    }

    /// Whether a mutation is mid-flight.
    pub open spec fn spec_pending(&self) -> bool {
        self.operation is Some
    }

    /// The spec after committing the pending operation: a create marks the
    /// pool created online, a destroy marks it deleted; the record of the
    /// operation is cleared.
    pub open spec fn spec_commit(self) -> PoolSpec {
        match self.operation {
            Some(op) => PoolSpec {
                status: match op.operation {
                    PoolOperation::Create => SpecStatus::Created(PoolStatus::Online),
                    PoolOperation::Destroy => SpecStatus::Deleted,
                },
                operation: None,
                ..self
            },
            None => PoolSpec { operation: None, ..self },
        }
    }

    /// The spec with the operation record cleared and nothing applied.
    pub open spec fn spec_clear(self) -> PoolSpec {
        PoolSpec { operation: None, ..self }
    }

    /// The spec with a fresh pending operation attached.
    pub open spec fn spec_start(self, operation: PoolOperation) -> PoolSpec {
        PoolSpec {
            operation: Some(PoolOperationState { operation, result: None }),
            ..self
        }
    }

    /// The spec with the data-plane call's result written into the pending
    /// operation, if one is pending.
    pub open spec fn spec_set_result(self, result: bool) -> PoolSpec {
        match self.operation {
            Some(op) => PoolSpec {
                operation: Some(PoolOperationState { operation: op.operation, result: Some(result) }),
                ..self
            },
            None => self,
        }
    }

    /// Whether a mutation is mid-flight.
    pub fn pending_op(&self) -> (r: bool)
        ensures
            r == self.spec_pending(),
    {
        match &self.operation {
            Some(_) => true,
            None => false,
        }
    }

    /// Commit the pending operation: apply its effect to the status and
    /// clear the record.
    pub fn commit_op(&mut self)
        ensures
            *final(self) == old(self).spec_commit(),
    {
        match &self.operation {
            Some(op) => {
                match op.operation {
                    PoolOperation::Create => {
                        self.status = SpecStatus::Created(PoolStatus::Online);
                    },
                    PoolOperation::Destroy => {
                        self.status = SpecStatus::Deleted;
                    },
                }
            },
            None => {},
        }
        self.operation = None;
    }

    /// Drop the record of the pending operation without applying it.
    pub fn clear_op(&mut self)
        ensures
            *final(self) == old(self).spec_clear(),
    {
        self.operation = None;
    }

    /// Attach a fresh pending operation.
    pub fn start_op(&mut self, operation: PoolOperation)
        ensures
            *final(self) == old(self).spec_start(operation),
    {
        self.operation = Some(PoolOperationState { operation, result: None });
    }

    /// Write the data-plane call's result into the pending operation.
    pub fn set_op_result(&mut self, result: bool)
        ensures
            *final(self) == old(self).spec_set_result(result),
    {
        match &self.operation {
            Some(op) => {
                self.operation = Some(
                    PoolOperationState { operation: op.operation, result: Some(result) },
                );
            },
            None => {},
        }
    }

    /// Id of the pool this spec belongs to.
    pub fn uuid(&self) -> (r: &PoolId)
        ensures
            r@ == self.id@,
    {
        &self.id
    }

    /// The store key under which this spec is persisted.
    pub fn key(&self) -> (r: PoolSpecKey)
        ensures
            r.0@ == self.id@,
    {
        PoolSpecKey(self.id.clone())
    }

    /// Whether this spec was made from the same content as the request
    /// and has no mutation mid-flight: the fields a creator chooses must
    /// be equal, the status and the sequencer are ignored, and a pending
    /// operation makes the spec count as not equal.
    pub open spec fn spec_matches_request(&self, request: CreatePool) -> bool {
        &&& self.node@ == request.node@
        &&& self.id@ == request.id@
        &&& self.disks.deep_view() == request.disks.deep_view()
        &&& spec_labels_eqv(self.labels, request.labels)
        &&& self.operation is None
    }

    /// Whether this spec asks for the same pool as the create request.
    /// The comparison ignores status and sequencer; a spec with a pending
    /// operation is mid-mutation and never counts as equal.
    pub fn matches_request(&self, request: &CreatePool) -> (r: bool)
        ensures
            r == self.spec_matches_request(*request),
    {
        if self.pending_op() {
            return false;
        }
        if !(self.node == request.node && self.id == request.id) {
            return false;
        }
        if !string_vecs_equal(&self.disks, &request.disks) {
            return false;
        }
        labels_equal(&self.labels, &request.labels)
    }

    /// Whether this spec names the pool with the given id.
    pub fn has_id(&self, id: &PoolId) -> (r: bool)
        ensures
            r == (self.id@ == id@),
    {
        self.id == *id
    }
}

/// Whether two string vectors hold the same texts in the same order.
pub fn string_vecs_equal(a: &Vec<String>, b: &Vec<String>) -> (r: bool)
    ensures
        r == (a.deep_view() == b.deep_view()),
{
    if a.len() != b.len() {
        proof {
            assert(a.deep_view().len() != b.deep_view().len());
        }
        return false;
    }
    let mut i: usize = 0;
    while i < a.len()
        invariant
            0 <= i <= a@.len(),
            a@.len() == b@.len(),
            forall|j: int| 0 <= j < i ==> a@[j]@ == b@[j]@,
        decreases a@.len() - i,
    {
        if !(a[i] == b[i]) {
            proof {
                assert(a.deep_view()[i as int] == a@[i as int]@);
                assert(b.deep_view()[i as int] == b@[i as int]@);
            }
            return false;
        }
        i = i + 1;
    }
    proof {
        assert forall|j: int| 0 <= j < a@.len() implies a.deep_view()[j] == b.deep_view()[j] by {
            assert(a.deep_view()[j] == a@[j]@);
            assert(b.deep_view()[j] == b@[j]@);
        }
        assert(a.deep_view() =~= b.deep_view());
    }
    true
}

/// Whether every pair of `a` occurs in `b`.
pub fn labels_contained(a: &Vec<(String, String)>, b: &Vec<(String, String)>) -> (r: bool)
    ensures
        r == spec_label_set_sub(a@, b@),
{
    let mut i: usize = 0;
    while i < a.len()
        invariant
            0 <= i <= a@.len(),
            forall|j: int|
                0 <= j < i ==> spec_label_in(b@, (#[trigger] a@[j]).0@, a@[j].1@),
        decreases a@.len() - i,
    {
        let mut found: bool = false;
        let mut j: usize = 0;
        while j < b.len()
            invariant
                0 <= j <= b@.len(),
                i < a@.len(),
                found ==> spec_label_in(b@, a@[i as int].0@, a@[i as int].1@),
                !found ==> forall|k: int|
                    0 <= k < j ==> !(b@[k].0@ == a@[i as int].0@ && b@[k].1@ == a@[
                        i as int
                    ].1@),
            decreases b@.len() - j,
        {
            if a[i].0 == b[j].0 && a[i].1 == b[j].1 {
                found = true;
            }
            j = j + 1;
        }
        if !found {
            proof {
                if spec_label_in(b@, a@[i as int].0@, a@[i as int].1@) {
                    let w = choose|w: int|
                        0 <= w < b@.len() && b@[w].0@ == a@[i as int].0@ && b@[w].1@ == a@[
                            i as int
                        ].1@;
                    assert(false);
                }
            }
            return false;
        }
        i = i + 1;
    }
    true
}

/// Whether two optional label lists carry the same label pairs, in any
/// order.
pub fn labels_equal(a: &Option<Vec<(String, String)>>, b: &Option<Vec<(String, String)>>) -> (r:
    bool)
    ensures
        r == spec_labels_eqv(*a, *b),
{
    match (a, b) {
        (None, None) => true,
        (Some(la), Some(lb)) => labels_contained(la, lb) && labels_contained(lb, la),
        _ => false,
    }
}

impl Clone for PoolSpec {
    fn clone(&self) -> (r: Self)
        ensures
            r.spec_eqv(*self),
            r.sequencer.state == self.sequencer.state,
            r.sequencer.uuid@ == self.sequencer.uuid@,
    {
        PoolSpec {
            node: self.node.clone(),
            id: self.id.clone(),
            disks: clone_string_vec(&self.disks),
            status: self.status,
            labels: clone_labels(&self.labels),
            sequencer: self.sequencer.clone(),
            operation: self.operation,
        }
    }
}

impl PoolSpec {
    /// The spec a create request asks for, starting its life `Creating`
    /// with an idle sequencer and no pending operation.
    pub fn from_request(request: &CreatePool) -> (r: Self)
        ensures
            r.spec_matches_request(*request),
            r.status is Creating,
            r.operation is None,
            r.sequencer.state == SequenceState::Idle,
            r.sequencer.uuid@ == request.id@,
    {
        PoolSpec {
            node: request.node.clone(),
            id: request.id.clone(),
            disks: clone_string_vec(&request.disks),
            status: SpecStatus::Creating,
            labels: clone_labels(&request.labels),
            sequencer: OperationSequence::new(request.id.clone()),
            operation: None,
        }
    }
}

/// Key used by the store to uniquely identify a pool spec.
#[derive(Debug)]
pub struct PoolSpecKey(pub PoolId);

impl PoolSpecKey {
    /// The record kind this key names.
    pub fn key_type(&self) -> (r: StorableObjectType)
        ensures
            r is PoolSpec,
    {
        StorableObjectType::PoolSpec
    }

    /// The id segment of the key.
    pub fn key_uuid(&self) -> (r: &String)
        ensures
            r@ == self.0@,
    {
        &self.0
    }

    /// The full store key text.
    pub fn key(&self) -> (r: String)
        ensures
            r@ == "spec/pool/"@ + self.0@,
    {
        store_key(StorableObjectType::PoolSpec, &self.0)
    }
}

impl From<&PoolId> for PoolSpecKey {
    /// The key of the pool named by `id`.
    fn from(id: &PoolId) -> (r: Self) {
        PoolSpecKey(id.clone())
    }
}

impl vstd::std_specs::convert::FromSpecImpl<&PoolId> for PoolSpecKey {
    open spec fn obeys_from_spec() -> bool {
        true
    }

    open spec fn from_spec(id: &PoolId) -> Self {
        PoolSpecKey(*id)
    }
}

} // verus!
