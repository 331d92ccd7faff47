//! Per-resource operation sequencer.
//!
//! Every spec handle carries an `OperationSequence`: a small state machine
//! that grants access to the resource in one of four modes. Acquisition
//! never blocks: a request that the current state refuses fails fast and
//! the caller retries on its next tick.

use vstd::prelude::*;

verus! {

/// The mode in which a task asks to hold a resource.
#[derive(Clone, Copy, Debug, PartialEq, Eq, Structural)]
pub enum OperationMode {
    /// A writer holds the resource for one mutation.
    Exclusive,
    /// A reconciler holds the resource for a whole reconcile pass.
    ReconcileStart,
    /// A single reconcile sub-step; re-entrant under `ReconcileStart`.
    ReconcileStep,
    /// A read-only holder; many may coexist.
    Shared,
}

/// The state of one resource's sequencer.
#[derive(Clone, Copy, Debug, PartialEq, Eq, Structural)]
pub enum SequenceState {
    /// Nobody holds the resource.
    Idle,
    /// A writer holds it.
    Exclusive,
    /// A reconciler holds it; `step` says whether a sub-step is active too.
    Reconcile { step: bool },
    /// A lone reconcile sub-step, entered from `Idle`.
    ReconcileStep,
    /// `count` read-only holders (always at least one).
    Shared { count: u64 },
}

/// What acquiring `mode` from state `s` yields: the successor state on a
/// grant, or nothing when the request must fail fast with `Busy`.
pub open spec fn spec_try_acquire(s: SequenceState, mode: OperationMode) -> Option<SequenceState> {
    match mode {
        OperationMode::Exclusive => match s {
            SequenceState::Idle => Some(SequenceState::Exclusive),
            _ => None,
        },
        OperationMode::ReconcileStart => match s {
            SequenceState::Idle => Some(SequenceState::Reconcile { step: false }),
            _ => None,
        },
        OperationMode::ReconcileStep => match s {
            SequenceState::Idle => Some(SequenceState::ReconcileStep),
            SequenceState::Reconcile { step: false } => Some(SequenceState::Reconcile { step: true }),
            _ => None,
        },
        OperationMode::Shared => match s {
            SequenceState::Idle => Some(SequenceState::Shared { count: 1 }),
            SequenceState::Shared { count } => if count < u64::MAX {
                Some(SequenceState::Shared { count: (count + 1) as u64 })
            } else {
                None
            },
            _ => None,
        },
    }
}

/// Whether state `s` currently holds mode `mode`, so that a release of that
/// mode is meaningful.
pub open spec fn spec_holds(s: SequenceState, mode: OperationMode) -> bool {
    match mode {
        OperationMode::Exclusive => s is Exclusive,
        OperationMode::ReconcileStart => s matches SequenceState::Reconcile { step: false },
        OperationMode::ReconcileStep => s is ReconcileStep || (s matches SequenceState::Reconcile {
            step: true,
        }),
        OperationMode::Shared => s is Shared,
    }
}

/// The state after releasing `mode` from state `s`.
pub open spec fn spec_release(s: SequenceState, mode: OperationMode) -> SequenceState {
    match mode {
        OperationMode::Exclusive => SequenceState::Idle,
        OperationMode::ReconcileStart => SequenceState::Idle,
        OperationMode::ReconcileStep => match s {
            SequenceState::Reconcile { step: true } => SequenceState::Reconcile { step: false },
            _ => SequenceState::Idle,
        },
        OperationMode::Shared => match s {
            SequenceState::Shared { count } => if count > 1 {
                SequenceState::Shared { count: (count - 1) as u64 }
            } else {
                SequenceState::Idle
            },
            _ => SequenceState::Idle,
        },
    }
}

/// The sequencer attached to one resource spec: the resource's id and the
/// guard state.
#[derive(Debug)]
pub struct OperationSequence {
    /// Id of the resource the sequencer guards.
    pub uuid: String,
    /// The guard state.
    pub state: SequenceState,
}

impl Clone for OperationSequence {
    fn clone(&self) -> (r: Self)
        ensures
            r == *self,
    {
        OperationSequence { uuid: self.uuid.clone(), state: self.state }
    }
}

impl OperationSequence {
    /// Well-formed: a shared state counts at least one holder.
    pub open spec fn wf(&self) -> bool {
        self.state matches SequenceState::Shared { count } ==> count >= 1
    }

    /// A fresh sequencer for the resource with the given id, idle.
    pub fn new(uuid: String) -> (r: Self)
        ensures
            r.uuid == uuid,
            r.state == SequenceState::Idle,
            r.wf(),
    {
        OperationSequence { uuid, state: SequenceState::Idle }
    }

    /// Try to take the sequencer in `mode`. Returns whether the grant was
    /// given; on refusal the state is untouched and the caller must retry
    /// later (`Busy`).
    pub fn try_acquire(&mut self, mode: OperationMode) -> (granted: bool)
        ensures
            granted == spec_try_acquire(old(self).state, mode) is Some,
            granted ==> final(self).state == spec_try_acquire(old(self).state, mode)->Some_0,
            !granted ==> final(self).state == old(self).state,
            final(self).uuid == old(self).uuid,
            old(self).wf() ==> final(self).wf(),
    {
        match mode {
            OperationMode::Exclusive => match self.state {
                SequenceState::Idle => {
                    self.state = SequenceState::Exclusive;
                    true
                },
                _ => false,
            },
            OperationMode::ReconcileStart => match self.state {
                SequenceState::Idle => {
                    self.state = SequenceState::Reconcile { step: false };
                    true
                },
                _ => false,
            },
            OperationMode::ReconcileStep => match self.state {
                SequenceState::Idle => {
                    self.state = SequenceState::ReconcileStep;
                    true
                },
                SequenceState::Reconcile { step: false } => {
                    self.state = SequenceState::Reconcile { step: true };
                    true
                },
                _ => false,
            },
            OperationMode::Shared => match self.state {
                SequenceState::Idle => {
                    self.state = SequenceState::Shared { count: 1 };
                    true
                },
                SequenceState::Shared { count } => {
                    if count < u64::MAX {
                        self.state = SequenceState::Shared { count: count + 1 };
                        true
                    } else {
                        false
                    }
                },
                _ => false,
            },
        }
    }

    /// Release a previously granted `mode`: back to idle, one step down in
    /// a reconcile pass, or one shared holder fewer.
    pub fn release(&mut self, mode: OperationMode)
        requires
            spec_holds(old(self).state, mode),
        ensures
            final(self).state == spec_release(old(self).state, mode),
            final(self).uuid == old(self).uuid,
            old(self).wf() ==> final(self).wf(),
    {
        match mode {
            OperationMode::Exclusive => {
                self.state = SequenceState::Idle;
            },
            OperationMode::ReconcileStart => {
                self.state = SequenceState::Idle;
            },
            OperationMode::ReconcileStep => match self.state {
                SequenceState::Reconcile { step: true } => {
                    self.state = SequenceState::Reconcile { step: false };
                },
                _ => {
                    self.state = SequenceState::Idle;
                },
            },
            OperationMode::Shared => match self.state {
                SequenceState::Shared { count } => {
                    if count > 1 {
                        self.state = SequenceState::Shared { count: count - 1 };
                    } else {
                        self.state = SequenceState::Idle;
                    }
                },
                _ => {
                    self.state = SequenceState::Idle;
                },
            },
        }
    }
}

/// Sequencer exclusion: `Exclusive` and `ReconcileStart` exclude each other
/// and themselves. Once either grant is given, no further `Exclusive` or
/// `ReconcileStart` request is granted until the holder releases.
pub proof fn lemma_sequencer_exclusion(s: SequenceState)
    ensures
        spec_try_acquire(s, OperationMode::Exclusive) is Some ==> {
            let held = spec_try_acquire(s, OperationMode::Exclusive)->Some_0;
            spec_try_acquire(held, OperationMode::Exclusive) is None && spec_try_acquire(
                held,
                OperationMode::ReconcileStart,
            ) is None
        },
        spec_try_acquire(s, OperationMode::ReconcileStart) is Some ==> {
            let held = spec_try_acquire(s, OperationMode::ReconcileStart)->Some_0;
            spec_try_acquire(held, OperationMode::Exclusive) is None && spec_try_acquire(
                held,
                OperationMode::ReconcileStart,
            ) is None
        },
{
}

/// While a writer or a reconciler holds the sequencer, no request in any
/// mode but a nested `ReconcileStep` is granted.
pub proof fn lemma_holder_blocks_all(s: SequenceState, mode: OperationMode)
    requires
        s is Exclusive || s is ReconcileStep || (s matches SequenceState::Reconcile {
            step: true,
        }),
    ensures
        spec_try_acquire(s, mode) is None,
{
}

} // verus!
