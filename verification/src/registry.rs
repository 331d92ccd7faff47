//! The in-memory specs registry: for each resource kind, the specs the
//! control plane knows, keyed by resource id. Loaded from the store at
//! startup and written through on every mutation, so that the in-memory
//! state never leads the persisted state.

use crate::nexusspec::NexusSpec;
use crate::pool::PoolSpec;
use crate::replica::ReplicaSpec;
use crate::volume::VolumeSpec;
use vstd::prelude::*;

verus! {

/// A spec that is named by a resource id.
pub trait HasResourceId: Sized {
    /// The id text that names the resource.
    spec fn sid(&self) -> Seq<char>;
}

impl HasResourceId for PoolSpec {
    open spec fn sid(&self) -> Seq<char> {
        self.id@
    }
}

impl HasResourceId for ReplicaSpec {
    open spec fn sid(&self) -> Seq<char> {
        self.uuid@
    }
}

impl HasResourceId for NexusSpec {
    open spec fn sid(&self) -> Seq<char> {
        self.uuid@
    }
}

impl HasResourceId for VolumeSpec {
    open spec fn sid(&self) -> Seq<char> {
        self.uuid@
    }
}

/// The first spec in the list whose id reads as `id`.
pub open spec fn spec_of_seq<T: HasResourceId>(items: Seq<T>, id: Seq<char>) -> Option<T>
    decreases items.len(),
{
    if items.len() == 0 {
        None
    } else if items[0].sid() == id {
        Some(items[0])
    } else {
        spec_of_seq(items.drop_first(), id)
    }
}

/// No two specs in the list share an id.
pub open spec fn spec_unique_ids<T: HasResourceId>(items: Seq<T>) -> bool {
    forall|i: int, j: int| 0 <= i < j < items.len() ==> items[i].sid() != items[j].sid()
}

/// Dropping the first spec keeps ids unique.
proof fn lemma_unique_drop_first<T: HasResourceId>(items: Seq<T>)
    requires
        items.len() > 0,
        spec_unique_ids(items),
    ensures
        spec_unique_ids(items.drop_first()),
{
    assert forall|a: int, b: int|
        0 <= a < b < items.drop_first().len() implies items.drop_first()[a].sid()
        != items.drop_first()[b].sid() by {
        assert(items.drop_first()[a] == items[a + 1]);
        assert(items.drop_first()[b] == items[b + 1]);
    }
}

/// A spec at an index with the sought id is what the lookup finds.
pub proof fn lemma_of_index<T: HasResourceId>(items: Seq<T>, i: int, id: Seq<char>)
    requires
        0 <= i < items.len(),
        items[i].sid() == id,
        spec_unique_ids(items),
    ensures
        spec_of_seq(items, id) == Some(items[i]),
    decreases items.len(),
{
    if i > 0 {
        assert(items.drop_first()[i - 1] == items[i]);
        lemma_unique_drop_first(items);
        lemma_of_index(items.drop_first(), i - 1, id);
    }
}

/// A lookup that finds nothing means no spec carries the id.
pub proof fn lemma_of_none_rev<T: HasResourceId>(items: Seq<T>, id: Seq<char>)
    requires
        spec_of_seq(items, id) is None,
    ensures
        forall|j: int| 0 <= j < items.len() ==> items[j].sid() != id,
    decreases items.len(),
{
    if items.len() > 0 {
        lemma_of_none_rev(items.drop_first(), id);
        assert forall|j: int| 0 <= j < items.len() implies items[j].sid() != id by {
            if j > 0 {
                assert(items.drop_first()[j - 1] == items[j]);
            }
        }
    }
}

/// An id that no spec carries is not found.
pub proof fn lemma_of_none<T: HasResourceId>(items: Seq<T>, id: Seq<char>)
    requires
        forall|j: int| 0 <= j < items.len() ==> items[j].sid() != id,
    ensures
        spec_of_seq(items, id) is None,
    decreases items.len(),
{
    if items.len() > 0 {
        assert(forall|j: int|
            0 <= j < items.drop_first().len() ==> items.drop_first()[j].sid() != id);
        lemma_of_none(items.drop_first(), id);
    }
}

/// Replacing the spec at index `i` by one carrying the same id rewrites
/// that id's lookup and no other.
pub proof fn lemma_of_update<T: HasResourceId>(items: Seq<T>, i: int, e: T, k: Seq<char>)
    requires
        0 <= i < items.len(),
        spec_unique_ids(items),
        e.sid() == items[i].sid(),
    ensures
        spec_of_seq(items.update(i, e), k) == (if k == items[i].sid() {
            Some(e)
        } else {
            spec_of_seq(items, k)
        }),
    decreases items.len(),
{
    let updated = items.update(i, e);
    if i == 0 {
        if k != items[0].sid() {
            assert(updated.drop_first() =~= items.drop_first());
        }
    } else {
        assert(updated[0] == items[0]);
        assert(updated.drop_first() =~= items.drop_first().update(i - 1, e));
        assert(items.drop_first()[i - 1] == items[i]);
        lemma_unique_drop_first(items);
        lemma_of_update(items.drop_first(), i - 1, e, k);
    }
}

/// Appending a spec adds its id's lookup and touches no present id.
pub proof fn lemma_of_push<T: HasResourceId>(items: Seq<T>, e: T, k: Seq<char>)
    ensures
        spec_of_seq(items.push(e), k) == (if spec_of_seq(items, k) is Some {
            spec_of_seq(items, k)
        } else if e.sid() == k {
            Some(e)
        } else {
            None
        }),
    decreases items.len(),
{
    if items.len() == 0 {
        assert(items.push(e)[0] == e);
        let rest = items.push(e).drop_first();
        assert(rest =~= items);
        assert(spec_of_seq(rest, k) is None);
    } else {
        assert(items.push(e)[0] == items[0]);
        assert(items.push(e).drop_first() =~= items.drop_first().push(e));
        lemma_of_push(items.drop_first(), e, k);
        assert(spec_of_seq(items.push(e), k) == (if items[0].sid() == k {
            Some(items[0])
        } else {
            spec_of_seq(items.drop_first().push(e), k)
        }));
    }
}

/// Removing the spec at index `i` drops its id's lookup and no other.
pub proof fn lemma_of_remove<T: HasResourceId>(items: Seq<T>, i: int, k: Seq<char>)
    requires
        0 <= i < items.len(),
        spec_unique_ids(items),
    ensures
        spec_of_seq(items.remove(i), k) == (if k == items[i].sid() {
            Option::<T>::None
        } else {
            spec_of_seq(items, k)
        }),
    decreases items.len(),
{
    let removed = items.remove(i);
    if i == 0 {
        assert(removed =~= items.drop_first());
        if k == items[0].sid() {
            assert(forall|j: int| 0 <= j < removed.len() ==> removed[j].sid() != k);
            lemma_of_none(removed, k);
        }
    } else {
        assert(removed[0] == items[0]);
        assert(removed.drop_first() =~= items.drop_first().remove(i - 1));
        assert(items.drop_first()[i - 1] == items[i]);
        lemma_unique_drop_first(items);
        lemma_of_remove(items.drop_first(), i - 1, k);
    }
}

/// The per-kind spec maps.
#[derive(Debug)]
pub struct ResourceSpecs {
    /// Pool specs, at most one per pool id.
    pub pools: Vec<PoolSpec>,
    /// Replica specs, at most one per uuid.
    pub replicas: Vec<ReplicaSpec>,
    /// Nexus specs, at most one per uuid.
    pub nexuses: Vec<NexusSpec>,
    /// Volume specs, at most one per uuid.
    pub volumes: Vec<VolumeSpec>,
}

impl ResourceSpecs {
    /// Well-formed: within each kind, a resource id names at most one spec.
    pub open spec fn wf(&self) -> bool {
        &&& spec_unique_ids(self.pools@)
        &&& spec_unique_ids(self.replicas@)
        &&& spec_unique_ids(self.nexuses@)
        &&& spec_unique_ids(self.volumes@)
    }

    /// The pool spec with the given id, if the registry knows it.
    pub open spec fn spec_pool_of(&self, id: Seq<char>) -> Option<PoolSpec> {
        spec_of_seq(self.pools@, id)
    }

    /// The replica spec with the given uuid, if the registry knows it.
    pub open spec fn spec_replica_of(&self, id: Seq<char>) -> Option<ReplicaSpec> {
        spec_of_seq(self.replicas@, id)
    }

    /// The nexus spec with the given uuid, if the registry knows it.
    pub open spec fn spec_nexus_of(&self, id: Seq<char>) -> Option<NexusSpec> {
        spec_of_seq(self.nexuses@, id)
    }

    /// The volume spec with the given uuid, if the registry knows it.
    pub open spec fn spec_volume_of(&self, id: Seq<char>) -> Option<VolumeSpec> {
        spec_of_seq(self.volumes@, id)
    }

    /// An empty registry.
    pub fn new() -> (r: Self)
        ensures
            r.wf(),
            r.pools@.len() == 0,
            r.replicas@.len() == 0,
            r.nexuses@.len() == 0,
            r.volumes@.len() == 0,
    {
        ResourceSpecs {
            pools: Vec::new(),
            replicas: Vec::new(),
            nexuses: Vec::new(),
            volumes: Vec::new(),
        }
    }

    /// Where the volume with the given uuid sits, if the registry knows
    /// it.
    pub fn volume_index(&self, uuid: &String) -> (r: Option<usize>)
        requires
            self.wf(),
        ensures
            r is Some ==> r->Some_0 < self.volumes@.len() && self.volumes@[
                r->Some_0 as int
            ].uuid@ == uuid@ && self.spec_volume_of(uuid@) == Some(
                self.volumes@[r->Some_0 as int],
            ),
            r is None ==> self.spec_volume_of(uuid@) is None,
    {
        let mut i: usize = 0;
        while i < self.volumes.len()
            invariant
                0 <= i <= self.volumes@.len(),
                self.wf(),
                forall|j: int| 0 <= j < i ==> self.volumes@[j].uuid@ != uuid@,
            decreases self.volumes@.len() - i,
        {
            if self.volumes[i].has_id(uuid) {
                proof {
                    lemma_of_index(self.volumes@, i as int, uuid@);
                }
                return Some(i);
            }
            i = i + 1;
        }
        proof {
            lemma_of_none(self.volumes@, uuid@);
        }
        None
    }

    /// Insert a volume spec whose uuid the registry does not know yet.
    pub fn insert_volume(&mut self, spec: VolumeSpec) -> (inserted: bool)
        requires
            old(self).wf(),
        ensures
            final(self).wf(),
            inserted <==> old(self).spec_volume_of(spec.uuid@) is None,
            inserted ==> final(self).volumes@ == old(self).volumes@.push(spec),
            inserted ==> final(self).spec_volume_of(spec.uuid@) == Some(spec),
            !inserted ==> *final(self) == *old(self),
            final(self).pools@ == old(self).pools@,
            final(self).replicas@ == old(self).replicas@,
            final(self).nexuses@ == old(self).nexuses@,
    {
        match self.volume_index(&spec.uuid) {
            Some(_) => false,
            None => {
                proof {
                    lemma_of_none_rev(self.volumes@, spec.uuid@);
                    assert forall|a: int, b: int|
                        0 <= a < b < self.volumes@.push(spec).len() implies self.volumes@.push(
                        spec,
                    )[a].sid() != self.volumes@.push(spec)[b].sid() by {
                        if b < self.volumes@.len() {
                            assert(self.volumes@[a].sid() != self.volumes@[b].sid());
                        } else {
                            assert(self.volumes@.push(spec)[b] == spec);
                            assert(self.volumes@.push(spec)[a] == self.volumes@[a]);
                        }
                    }
                    lemma_of_push(self.volumes@, spec, spec.uuid@);
                }
                self.volumes.push(spec);
                true
            },
        }
    }

    /// Drop the volume spec with the given uuid, if the registry knows
    /// it.
    pub fn remove_volume(&mut self, uuid: &String)
        requires
            old(self).wf(),
        ensures
            final(self).wf(),
            final(self).spec_volume_of(uuid@) is None,
            forall|k: Seq<char>|
                k != uuid@ ==> final(self).spec_volume_of(k) == old(self).spec_volume_of(k),
            final(self).pools@ == old(self).pools@,
            final(self).replicas@ == old(self).replicas@,
            final(self).nexuses@ == old(self).nexuses@,
    {
        match self.volume_index(uuid) {
            Some(i) => {
                proof {
                    let removed = self.volumes@.remove(i as int);
                    assert forall|k: Seq<char>| #![auto] true implies spec_of_seq(removed, k) == (
                    if k == uuid@ {
                        Option::<VolumeSpec>::None
                    } else {
                        self.spec_volume_of(k)
                    }) by {
                        lemma_of_remove(self.volumes@, i as int, k);
                    }
                    assert forall|a: int, b: int|
                        0 <= a < b < removed.len() implies removed[a].sid() != removed[b].sid() by {
                        if b < i {
                        } else if a < i {
                            assert(removed[b] == self.volumes@[b + 1]);
                        } else {
                            assert(removed[a] == self.volumes@[a + 1]);
                            assert(removed[b] == self.volumes@[b + 1]);
                        }
                    }
                }
                self.volumes.remove(i);
            },
            None => {},
        }
    }

    /// Where the pool with the given id sits, if the registry knows it.
    pub fn pool_index(&self, id: &String) -> (r: Option<usize>)
        requires
            self.wf(),
        ensures
            r is Some ==> r->Some_0 < self.pools@.len() && self.pools@[r->Some_0 as int].id@ == id@
                && self.spec_pool_of(id@) == Some(self.pools@[r->Some_0 as int]),
            r is None ==> self.spec_pool_of(id@) is None,
    {
        let mut i: usize = 0;
        while i < self.pools.len()
            invariant
                0 <= i <= self.pools@.len(),
                self.wf(),
                forall|j: int| 0 <= j < i ==> self.pools@[j].id@ != id@,
            decreases self.pools@.len() - i,
        {
            if self.pools[i].has_id(id) {
                proof {
                    lemma_of_index(self.pools@, i as int, id@);
                }
                return Some(i);
            }
            i = i + 1;
        }
        proof {
            lemma_of_none(self.pools@, id@);
        }
        None
    }

    /// Where the replica with the given uuid sits, if the registry knows
    /// it.
    pub fn replica_index(&self, uuid: &String) -> (r: Option<usize>)
        requires
            self.wf(),
        ensures
            r is Some ==> r->Some_0 < self.replicas@.len() && self.replicas@[
                r->Some_0 as int
            ].uuid@ == uuid@ && self.spec_replica_of(uuid@) == Some(
                self.replicas@[r->Some_0 as int],
            ),
            r is None ==> self.spec_replica_of(uuid@) is None,
    {
        let mut i: usize = 0;
        while i < self.replicas.len()
            invariant
                0 <= i <= self.replicas@.len(),
                self.wf(),
                forall|j: int| 0 <= j < i ==> self.replicas@[j].uuid@ != uuid@,
            decreases self.replicas@.len() - i,
        {
            if self.replicas[i].has_id(uuid) {
                proof {
                    lemma_of_index(self.replicas@, i as int, uuid@);
                }
                return Some(i);
            }
            i = i + 1;
        }
        proof {
            lemma_of_none(self.replicas@, uuid@);
        }
        None
    }

    /// Where the nexus with the given uuid sits, if the registry knows it.
    pub fn nexus_index(&self, uuid: &String) -> (r: Option<usize>)
        requires
            self.wf(),
        ensures
            r is Some ==> r->Some_0 < self.nexuses@.len() && self.nexuses@[
                r->Some_0 as int
            ].uuid@ == uuid@ && self.spec_nexus_of(uuid@) == Some(
                self.nexuses@[r->Some_0 as int],
            ),
            r is None ==> self.spec_nexus_of(uuid@) is None,
    {
        let mut i: usize = 0;
        while i < self.nexuses.len()
            invariant
                0 <= i <= self.nexuses@.len(),
                self.wf(),
                forall|j: int| 0 <= j < i ==> self.nexuses@[j].uuid@ != uuid@,
            decreases self.nexuses@.len() - i,
        {
            if self.nexuses[i].has_id(uuid) {
                proof {
                    lemma_of_index(self.nexuses@, i as int, uuid@);
                }
                return Some(i);
            }
            i = i + 1;
        }
        proof {
            lemma_of_none(self.nexuses@, uuid@);
        }
        None
    }

    /// Insert a pool spec whose id the registry does not know yet; an
    /// existing spec with that id stays untouched and the insert reports
    /// that it kept the old one.
    pub fn insert_pool(&mut self, spec: PoolSpec) -> (inserted: bool)
        requires
            old(self).wf(),
        ensures
            final(self).wf(),
            inserted <==> old(self).spec_pool_of(spec.id@) is None,
            inserted ==> final(self).pools@ == old(self).pools@.push(spec),
            inserted ==> final(self).spec_pool_of(spec.id@) == Some(spec),
            inserted ==> forall|k: Seq<char>|
                k != spec.id@ ==> final(self).spec_pool_of(k) == old(self).spec_pool_of(k),
            !inserted ==> *final(self) == *old(self),
            final(self).replicas@ == old(self).replicas@,
            final(self).nexuses@ == old(self).nexuses@,
            final(self).volumes@ == old(self).volumes@,
    {
        match self.pool_index(&spec.id) {
            Some(_) => false,
            None => {
                proof {
                    lemma_of_none_rev(self.pools@, spec.id@);
                    assert forall|a: int, b: int|
                        0 <= a < b < self.pools@.push(spec).len() implies self.pools@.push(
                        spec,
                    )[a].sid() != self.pools@.push(spec)[b].sid() by {
                        if b < self.pools@.len() {
                            assert(self.pools@[a].sid() != self.pools@[b].sid());
                        } else {
                            assert(self.pools@.push(spec)[b] == spec);
                            assert(self.pools@.push(spec)[a] == self.pools@[a]);
                        }
                    }
                    assert forall|k: Seq<char>| #![auto] true implies spec_of_seq(
                        self.pools@.push(spec),
                        k,
                    ) == (if self.spec_pool_of(k) is Some {
                        self.spec_pool_of(k)
                    } else if spec.id@ == k {
                        Some(spec)
                    } else {
                        None
                    }) by {
                        lemma_of_push(self.pools@, spec, k);
                    }
                }
                self.pools.push(spec);
                true
            },
        }
    }

    /// Insert a replica spec whose uuid the registry does not know yet.
    pub fn insert_replica(&mut self, spec: ReplicaSpec) -> (inserted: bool)
        requires
            old(self).wf(),
        ensures
            final(self).wf(),
            inserted <==> old(self).spec_replica_of(spec.uuid@) is None,
            inserted ==> final(self).replicas@ == old(self).replicas@.push(spec),
            inserted ==> final(self).spec_replica_of(spec.uuid@) == Some(spec),
            inserted ==> forall|k: Seq<char>|
                k != spec.uuid@ ==> final(self).spec_replica_of(k) == old(self).spec_replica_of(k),
            !inserted ==> *final(self) == *old(self),
            final(self).pools@ == old(self).pools@,
            final(self).nexuses@ == old(self).nexuses@,
            final(self).volumes@ == old(self).volumes@,
    {
        match self.replica_index(&spec.uuid) {
            Some(_) => false,
            None => {
                proof {
                    lemma_of_none_rev(self.replicas@, spec.uuid@);
                    assert forall|a: int, b: int|
                        0 <= a < b < self.replicas@.push(spec).len() implies self.replicas@.push(
                        spec,
                    )[a].sid() != self.replicas@.push(spec)[b].sid() by {
                        if b < self.replicas@.len() {
                            assert(self.replicas@[a].sid() != self.replicas@[b].sid());
                        } else {
                            assert(self.replicas@.push(spec)[b] == spec);
                            assert(self.replicas@.push(spec)[a] == self.replicas@[a]);
                        }
                    }
                    assert forall|k: Seq<char>| #![auto] true implies spec_of_seq(
                        self.replicas@.push(spec),
                        k,
                    ) == (if self.spec_replica_of(k) is Some {
                        self.spec_replica_of(k)
                    } else if spec.uuid@ == k {
                        Some(spec)
                    } else {
                        None
                    }) by {
                        lemma_of_push(self.replicas@, spec, k);
                    }
                }
                self.replicas.push(spec);
                true
            },
        }
    }

    /// Insert a nexus spec whose uuid the registry does not know yet.
    pub fn insert_nexus(&mut self, spec: NexusSpec) -> (inserted: bool)
        requires
            old(self).wf(),
        ensures
            final(self).wf(),
            inserted <==> old(self).spec_nexus_of(spec.uuid@) is None,
            inserted ==> final(self).nexuses@ == old(self).nexuses@.push(spec),
            inserted ==> final(self).spec_nexus_of(spec.uuid@) == Some(spec),
            inserted ==> forall|k: Seq<char>|
                k != spec.uuid@ ==> final(self).spec_nexus_of(k) == old(self).spec_nexus_of(k),
            !inserted ==> *final(self) == *old(self),
            final(self).pools@ == old(self).pools@,
            final(self).replicas@ == old(self).replicas@,
            final(self).volumes@ == old(self).volumes@,
    {
        match self.nexus_index(&spec.uuid) {
            Some(_) => false,
            None => {
                proof {
                    lemma_of_none_rev(self.nexuses@, spec.uuid@);
                    assert forall|a: int, b: int|
                        0 <= a < b < self.nexuses@.push(spec).len() implies self.nexuses@.push(
                        spec,
                    )[a].sid() != self.nexuses@.push(spec)[b].sid() by {
                        if b < self.nexuses@.len() {
                            assert(self.nexuses@[a].sid() != self.nexuses@[b].sid());
                        } else {
                            assert(self.nexuses@.push(spec)[b] == spec);
                            assert(self.nexuses@.push(spec)[a] == self.nexuses@[a]);
                        }
                    }
                    assert forall|k: Seq<char>| #![auto] true implies spec_of_seq(
                        self.nexuses@.push(spec),
                        k,
                    ) == (if self.spec_nexus_of(k) is Some {
                        self.spec_nexus_of(k)
                    } else if spec.uuid@ == k {
                        Some(spec)
                    } else {
                        None
                    }) by {
                        lemma_of_push(self.nexuses@, spec, k);
                    }
                }
                self.nexuses.push(spec);
                true
            },
        }
    }

    /// Replace the pool spec at `i` by one that keeps its id.
    pub fn set_pool(&mut self, i: usize, spec: PoolSpec)
        requires
            old(self).wf(),
            i < old(self).pools@.len(),
            spec.id@ == old(self).pools@[i as int].id@,
        ensures
            final(self).wf(),
            final(self).pools@ == old(self).pools@.update(i as int, spec),
            final(self).spec_pool_of(spec.id@) == Some(spec),
            forall|k: Seq<char>|
                k != spec.id@ ==> final(self).spec_pool_of(k) == old(self).spec_pool_of(k),
            final(self).replicas@ == old(self).replicas@,
            final(self).nexuses@ == old(self).nexuses@,
            final(self).volumes@ == old(self).volumes@,
    {
        proof {
            assert forall|k: Seq<char>| #![auto] true implies spec_of_seq(
                self.pools@.update(i as int, spec),
                k,
            ) == (if k == self.pools@[i as int].id@ {
                Some(spec)
            } else {
                self.spec_pool_of(k)
            }) by {
                lemma_of_update(self.pools@, i as int, spec, k);
            }
            assert forall|a: int, b: int|
                0 <= a < b < self.pools@.update(i as int, spec).len() implies self.pools@.update(
                i as int,
                spec,
            )[a].sid() != self.pools@.update(i as int, spec)[b].sid() by {
                assert(self.pools@[a].sid() != self.pools@[b].sid());
            }
        }
        self.pools.set(i, spec);
    }

    /// Replace the replica spec at `i` by one that keeps its uuid.
    pub fn set_replica(&mut self, i: usize, spec: ReplicaSpec)
        requires
            old(self).wf(),
            i < old(self).replicas@.len(),
            spec.uuid@ == old(self).replicas@[i as int].uuid@,
        ensures
            final(self).wf(),
            final(self).replicas@ == old(self).replicas@.update(i as int, spec),
            final(self).spec_replica_of(spec.uuid@) == Some(spec),
            forall|k: Seq<char>|
                k != spec.uuid@ ==> final(self).spec_replica_of(k) == old(self).spec_replica_of(k),
            final(self).pools@ == old(self).pools@,
            final(self).nexuses@ == old(self).nexuses@,
            final(self).volumes@ == old(self).volumes@,
    {
        proof {
            assert forall|k: Seq<char>| #![auto] true implies spec_of_seq(
                self.replicas@.update(i as int, spec),
                k,
            ) == (if k == self.replicas@[i as int].uuid@ {
                Some(spec)
            } else {
                self.spec_replica_of(k)
            }) by {
                lemma_of_update(self.replicas@, i as int, spec, k);
            }
            assert forall|a: int, b: int|
                0 <= a < b < self.replicas@.update(i as int, spec).len() implies self.replicas@
                .update(i as int, spec)[a].sid() != self.replicas@.update(
                i as int,
                spec,
            )[b].sid() by {
                assert(self.replicas@[a].sid() != self.replicas@[b].sid());
            }
        }
        self.replicas.set(i, spec);
    }

    /// Replace the nexus spec at `i` by one that keeps its uuid.
    pub fn set_nexus(&mut self, i: usize, spec: NexusSpec)
        requires
            old(self).wf(),
            i < old(self).nexuses@.len(),
            spec.uuid@ == old(self).nexuses@[i as int].uuid@,
        ensures
            final(self).wf(),
            final(self).nexuses@ == old(self).nexuses@.update(i as int, spec),
            final(self).spec_nexus_of(spec.uuid@) == Some(spec),
            forall|k: Seq<char>|
                k != spec.uuid@ ==> final(self).spec_nexus_of(k) == old(self).spec_nexus_of(k),
            final(self).pools@ == old(self).pools@,
            final(self).replicas@ == old(self).replicas@,
            final(self).volumes@ == old(self).volumes@,
    {
        proof {
            assert forall|k: Seq<char>| #![auto] true implies spec_of_seq(
                self.nexuses@.update(i as int, spec),
                k,
            ) == (if k == self.nexuses@[i as int].uuid@ {
                Some(spec)
            } else {
                self.spec_nexus_of(k)
            }) by {
                lemma_of_update(self.nexuses@, i as int, spec, k);
            }
            assert forall|a: int, b: int|
                0 <= a < b < self.nexuses@.update(i as int, spec).len() implies self.nexuses@
                .update(i as int, spec)[a].sid() != self.nexuses@.update(
                i as int,
                spec,
            )[b].sid() by {
                assert(self.nexuses@[a].sid() != self.nexuses@[b].sid());
            }
        }
        self.nexuses.set(i, spec);
    }

    /// Drop the pool spec with the given id, if the registry knows it.
    pub fn remove_pool(&mut self, id: &String)
        requires
            old(self).wf(),
        ensures
            final(self).wf(),
            final(self).spec_pool_of(id@) is None,
            forall|k: Seq<char>|
                k != id@ ==> final(self).spec_pool_of(k) == old(self).spec_pool_of(k),
            final(self).replicas@ == old(self).replicas@,
            final(self).nexuses@ == old(self).nexuses@,
            final(self).volumes@ == old(self).volumes@,
    {
        match self.pool_index(id) {
            Some(i) => {
                proof {
                    let removed = self.pools@.remove(i as int);
                    assert forall|k: Seq<char>| #![auto] true implies spec_of_seq(removed, k) == (
                    if k == id@ {
                        Option::<PoolSpec>::None
                    } else {
                        self.spec_pool_of(k)
                    }) by {
                        lemma_of_remove(self.pools@, i as int, k);
                    }
                    assert forall|a: int, b: int|
                        0 <= a < b < removed.len() implies removed[a].sid() != removed[b].sid() by {
                        if b < i {
                        } else if a < i {
                            assert(removed[b] == self.pools@[b + 1]);
                        } else {
                            assert(removed[a] == self.pools@[a + 1]);
                            assert(removed[b] == self.pools@[b + 1]);
                        }
                    }
                }
                self.pools.remove(i);
            },
            None => {},
        }
    }

    /// Drop the replica spec with the given uuid, if the registry knows it.
    pub fn remove_replica(&mut self, uuid: &String)
        requires
            old(self).wf(),
        ensures
            final(self).wf(),
            final(self).spec_replica_of(uuid@) is None,
            forall|k: Seq<char>|
                k != uuid@ ==> final(self).spec_replica_of(k) == old(self).spec_replica_of(k),
            final(self).pools@ == old(self).pools@,
            final(self).nexuses@ == old(self).nexuses@,
            final(self).volumes@ == old(self).volumes@,
    {
        match self.replica_index(uuid) {
            Some(i) => {
                proof {
                    let removed = self.replicas@.remove(i as int);
                    assert forall|k: Seq<char>| #![auto] true implies spec_of_seq(removed, k) == (
                    if k == uuid@ {
                        Option::<ReplicaSpec>::None
                    } else {
                        self.spec_replica_of(k)
                    }) by {
                        lemma_of_remove(self.replicas@, i as int, k);
                    }
                    assert forall|a: int, b: int|
                        0 <= a < b < removed.len() implies removed[a].sid() != removed[b].sid() by {
                        if b < i {
                        } else if a < i {
                            assert(removed[b] == self.replicas@[b + 1]);
                        } else {
                            assert(removed[a] == self.replicas@[a + 1]);
                            assert(removed[b] == self.replicas@[b + 1]);
                        }
                    }
                }
                self.replicas.remove(i);
            },
            None => {},
        }
    }

    /// Drop the nexus spec with the given uuid, if the registry knows it.
    pub fn remove_nexus(&mut self, uuid: &String)
        requires
            old(self).wf(),
        ensures
            final(self).wf(),
            final(self).spec_nexus_of(uuid@) is None,
            forall|k: Seq<char>|
                k != uuid@ ==> final(self).spec_nexus_of(k) == old(self).spec_nexus_of(k),
            final(self).pools@ == old(self).pools@,
            final(self).replicas@ == old(self).replicas@,
            final(self).volumes@ == old(self).volumes@,
    {
        match self.nexus_index(uuid) {
            Some(i) => {
                proof {
                    let removed = self.nexuses@.remove(i as int);
                    assert forall|k: Seq<char>| #![auto] true implies spec_of_seq(removed, k) == (
                    if k == uuid@ {
                        Option::<NexusSpec>::None
                    } else {
                        self.spec_nexus_of(k)
                    }) by {
                        lemma_of_remove(self.nexuses@, i as int, k);
                    }
                    assert forall|a: int, b: int|
                        0 <= a < b < removed.len() implies removed[a].sid() != removed[b].sid() by {
                        if b < i {
                        } else if a < i {
                            assert(removed[b] == self.nexuses@[b + 1]);
                        } else {
                            assert(removed[a] == self.nexuses@[a + 1]);
                            assert(removed[b] == self.nexuses@[b + 1]);
                        }
                    }
                }
                self.nexuses.remove(i);
            },
            None => {},
        }
    }
}

} // verus!
