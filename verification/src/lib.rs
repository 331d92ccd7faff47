//! Control-plane core for a distributed block-storage platform.
//!
//! The library holds the verified heart of the control plane: the
//! per-resource operation sequencer, the spec registry with its
//! lease-fenced persistent store model, the operation executor, the
//! replica scheduler, and the reconcilers that drive observed state
//! toward the desired specs.
//!
//! The layout follows the components. `store` models the durable
//! key-value store with its lease-conditional writes, and `lease` the
//! keeper that elects the single writer against it. `registry` holds the
//! in-memory spec maps for the resource kinds in `pool`, `replica`,
//! `nexusspec` and `volume`, all sharing the lifecycle envelope in
//! `specs` and the guard in `sequencer`. `executor` is the one pipeline
//! every mutation takes; `scheduling` picks healthy replicas for a nexus
//! recreate from the health records in `nexus_info`; `reconciler` drives
//! the corrective passes over the snapshots that `nodes` caches. Around
//! that core, `msg`, `child`, `channel`, `mbus` and `wire` carry the
//! message types and their validated decodings, `errors` and `rest` the
//! error taxonomy and its REST mapping, and `diskpool` and `loki` the
//! operator's and the log collector's computations.

use vstd::prelude::*;

pub mod channel;
pub mod child;
pub mod diskpool;
pub mod errors;
pub mod executor;
pub mod ids;
pub mod kvlist;
pub mod lease;
pub mod loki;
pub mod mbus;
pub mod msg;
pub mod nexus_info;
pub mod nexusspec;
pub mod nodes;
pub mod pool;
pub mod reconciler;
pub mod registry;
pub mod replica;
pub mod rest;
pub mod scheduling;
pub mod sequencer;
pub mod specs;
pub mod store;
pub mod volume;
pub mod wire;

verus! {

/// Smallest building block kept here: the key prefix under which every
/// record of the control plane lives in the persistent store.
pub fn build_key_prefix(product: &str, cluster_uid: &str, namespace: &str) -> (r: String)
    ensures
        r@ == product@ + "/"@ + cluster_uid@ + "/"@ + namespace@,
{
    let mut s = String::new();
    s.append(product);
    s.append("/");
    s.append(cluster_uid);
    s.append("/");
    s.append(namespace);
    assert(s@ == product@ + "/"@ + cluster_uid@ + "/"@ + namespace@);
    s
}

/// Helper to convert a whole vector into another element type.
pub trait IntoVec<T>: Sized {
    /// How many elements the conversion starts from.
    spec fn spec_source_len(&self) -> nat;

    /// Performs the conversion, element by element.
    fn into_vec(self) -> (r: Vec<T>)
        ensures
            r@.len() == self.spec_source_len(),
    ;
}

impl<F, T: From<F>> IntoVec<T> for Vec<F> {
    open spec fn spec_source_len(&self) -> nat {
        self@.len()
    }

    fn into_vec(self) -> (r: Vec<T>) {
        let ghost n = self@.len();
        let mut src = self;
        let mut rev: Vec<T> = Vec::new();
        while src.len() > 0
            invariant
                src@.len() + rev@.len() == n,
            decreases src@.len(),
        {
            match src.pop() {
                Some(x) => rev.push(T::from(x)),
                None => {},
            }
        }
        let mut out: Vec<T> = Vec::new();
        while rev.len() > 0
            invariant
                rev@.len() + out@.len() == n,
            decreases rev@.len(),
        {
            match rev.pop() {
                Some(x) => out.push(x),
                None => {},
            }
        }
        out
    }
}

/// Helper to convert an optional value into another type.
pub trait IntoOption<T>: Sized {
    /// Whether a value is there to convert.
    spec fn spec_is_some(&self) -> bool;

    /// Performs the conversion, keeping absence.
    fn into_opt(self) -> (r: Option<T>)
        ensures
            r is Some <==> self.spec_is_some(),
    ;
}

impl<F, T: From<F>> IntoOption<T> for Option<F> {
    open spec fn spec_is_some(&self) -> bool {
        *self is Some
    }

    fn into_opt(self) -> (r: Option<T>) {
        match self {
            Some(x) => Some(T::from(x)),
            None => None,
        }
    }
}

} // verus!
