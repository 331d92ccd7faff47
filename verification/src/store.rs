//! Model of the persistent key-value store, with lease-fenced writes.
//!
//! Every control-plane write is conditional on holding the current lease at
//! a well-known lock key: a writer whose lease was revoked cannot commit
//! anything further. The store holds the control plane's records as
//! self-describing tagged values.

use crate::kvlist::{
    find_index, lemma_find_push, lemma_find_remove, lemma_find_update, spec_find, unique_keys,
};
use crate::nexus_info::NexusInfo;
use crate::nexusspec::NexusSpec;
use crate::pool::PoolSpec;
use crate::replica::ReplicaSpec;
use crate::volume::VolumeSpec;
use vstd::prelude::*;

verus! {

/// A record the store can hold, tagged by its kind.
#[derive(Debug)]
pub enum StoredValue {
    Pool(PoolSpec),
    Replica(ReplicaSpec),
    Nexus(NexusSpec),
    Volume(VolumeSpec),
    NexusInfo(NexusInfo),
}

impl StoredValue {
    /// Whether two records carry the same persisted content.
    pub open spec fn spec_eqv(self, other: StoredValue) -> bool {
        match (self, other) {
            (StoredValue::Pool(a), StoredValue::Pool(b)) => a.spec_eqv(b),
            (StoredValue::Replica(a), StoredValue::Replica(b)) => a.spec_eqv(b),
            (StoredValue::Nexus(a), StoredValue::Nexus(b)) => a.spec_eqv(b),
            (StoredValue::Volume(a), StoredValue::Volume(b)) => a.spec_eqv(b),
            (StoredValue::NexusInfo(a), StoredValue::NexusInfo(b)) => a.clean_shutdown
                == b.clean_shutdown && a.children@ == b.children@,
            _ => false,
        }
    }
}

impl Clone for StoredValue {
    fn clone(&self) -> (r: Self)
        ensures
            r.spec_eqv(*self),
    {
        match self {
            StoredValue::Pool(a) => StoredValue::Pool(a.clone()),
            StoredValue::Replica(a) => StoredValue::Replica(a.clone()),
            StoredValue::Nexus(a) => StoredValue::Nexus(a.clone()),
            StoredValue::Volume(a) => StoredValue::Volume(a.clone()),
            StoredValue::NexusInfo(a) => StoredValue::NexusInfo(a.clone()),
        }
    }
}

/// The errors a store operation can end in.
#[derive(Clone, Copy, Debug, PartialEq, Eq, Structural)]
pub enum StoreError {
    /// A conditional write found the lock held by another lease: the
    /// writer has lost leadership and must stop.
    FailedLock,
    /// The key holds no value.
    MissingEntry,
    /// The lease is not active.
    NotReady,
}

/// One held lock key: the lease that holds it and when that lease runs
/// out unless refreshed.
#[derive(Clone, Copy, Debug, PartialEq, Eq, Structural)]
pub struct LockEntry {
    /// Id of the holding lease.
    pub lease_id: u64,
    /// The clock reading past which the lease counts as expired.
    pub expires_at: u64,
}

/// Whether the lease holding a lock has run out at clock reading `now`.
pub open spec fn spec_lease_expired(e: LockEntry, now: u64) -> bool {
    now > e.expires_at
}

/// When a lease granted at `now` with the given TTL runs out, saturated.
pub open spec fn spec_expiry(now: u64, ttl: u64) -> u64 {
    if now + ttl > u64::MAX {
        u64::MAX
    } else {
        (now + ttl) as u64
    }
}

/// The pair a lease keeper exposes for conditional writes: the lease id
/// and the lock key the lease is attached to.
#[derive(Debug)]
pub struct LeasePair {
    /// Id of the granted lease.
    pub lease_id: u64,
    /// The well-known lock key the lease holds.
    pub lock_key: String,
}

impl Clone for LeasePair {
    fn clone(&self) -> (r: Self)
        ensures
            r.lease_id == self.lease_id,
            r.lock_key@ == self.lock_key@,
    {
        LeasePair { lease_id: self.lease_id, lock_key: self.lock_key.clone() }
    }
}

/// The store: its record entries and, for each lock key, the lease that
/// currently holds it.
#[derive(Debug)]
pub struct KeyValueStore {
    /// The records, keyed by their store key text.
    pub entries: Vec<(String, StoredValue)>,
    /// Which lease currently holds each lock key, and until when.
    pub locks: Vec<(String, LockEntry)>,
}

impl KeyValueStore {
    /// Well-formed: no key and no lock key occurs twice.
    pub open spec fn wf(&self) -> bool {
        unique_keys(self.entries@) && unique_keys(self.locks@)
    }

    /// The record under `key`, if any.
    pub open spec fn spec_get(&self, key: Seq<char>) -> Option<StoredValue> {
        spec_find(self.entries@, key)
    }

    /// The lock entry under `lock_key`, if any.
    pub open spec fn spec_lock_entry(&self, lock_key: Seq<char>) -> Option<LockEntry> {
        spec_find(self.locks@, lock_key)
    }

    /// The lease that holds `lock_key`, if any. A lease keeps holding its
    /// key until a grant takes the key over; expiry is judged when a
    /// takeover is attempted, as the store's sweep would have removed a
    /// run-out lease by then.
    pub open spec fn spec_lock_owner(&self, lock_key: Seq<char>) -> Option<u64> {
        match spec_find(self.locks@, lock_key) {
            Some(e) => Some(e.lease_id),
            None => None,
        }
    }

    /// Whether a write under `lease` may commit: an unconditional write
    /// always may; a conditional write only while its lease holds its lock
    /// key.
    pub open spec fn spec_write_allowed(&self, lease: Option<LeasePair>) -> bool {
        match lease {
            None => true,
            Some(l) => self.spec_lock_owner(l.lock_key@) == Some(l.lease_id),
        }
    }

    /// An empty store.
    pub fn new() -> (r: Self)
        ensures
            r.wf(),
            forall|k: Seq<char>| r.spec_get(k) is None,
            forall|k: Seq<char>| r.spec_lock_owner(k) is None,
    {
        KeyValueStore { entries: Vec::new(), locks: Vec::new() }
    }

    /// Whether the given lease currently holds its lock key.
    pub fn holds_lock(&self, lease: &LeasePair) -> (r: bool)
        requires
            self.wf(),
        ensures
            r == (self.spec_lock_owner(lease.lock_key@) == Some(lease.lease_id)),
    {
        match find_index(&self.locks, &lease.lock_key) {
            Some(i) => self.locks[i].1.lease_id == lease.lease_id,
            None => false,
        }
    }

    /// Put a record under `key`. With a lease the write is a transaction
    /// asserting that the lease still holds its lock key; its failure says
    /// the writer has lost leadership, and nothing is written.
    pub fn put_kv(&mut self, lease: Option<&LeasePair>, key: &String, value: StoredValue) -> (r:
        Result<(), StoreError>)
        requires
            old(self).wf(),
        ensures
            final(self).wf(),
            r is Ok <==> old(self).spec_write_allowed(match lease {
                Some(l) => Some(*l),
                None => None,
            }),
            r is Ok ==> final(self).spec_get(key@) == Some(value),
            r is Ok ==> forall|k: Seq<char>|
                k != key@ ==> final(self).spec_get(k) == old(self).spec_get(k),
            r is Ok ==> final(self).locks@ == old(self).locks@,
            r is Err ==> *final(self) == *old(self) && r->Err_0 is FailedLock,
    {
        if let Some(l) = lease {
            if !self.holds_lock(l) {
                return Err(StoreError::FailedLock);
            }
        }
        match find_index(&self.entries, key) {
            Some(i) => {
                let k = self.entries[i].0.clone();
                proof {
                    lemma_keep_unique_on_update(self.entries@, i as int, (k, value));
                    assert forall|kk: Seq<char>| #![auto] true implies spec_find(
                        self.entries@.update(i as int, (k, value)),
                        kk,
                    ) == (if kk == key@ {
                        Some(value)
                    } else {
                        spec_find(self.entries@, kk)
                    }) by {
                        lemma_find_update(self.entries@, i as int, (k, value), kk);
                    }
                }
                self.entries.set(i, (k, value));
            },
            None => {
                let k = key.clone();
                proof {
                    let pushed = self.entries@.push((k, value));
                    assert forall|a: int, b: int|
                        0 <= a < b < pushed.len() implies pushed[a].0@ != pushed[b].0@ by {
                        if b < pushed.len() - 1 {
                            assert(pushed[a] == self.entries@[a]);
                            assert(pushed[b] == self.entries@[b]);
                        } else {
                            assert(pushed[b] == (k, value));
                            assert(pushed[a] == self.entries@[a]);
                            if self.entries@[a].0@ == key@ {
                                crate::kvlist::lemma_find_index(self.entries@, a, key@);
                            }
                        }
                    }
                    assert forall|kk: Seq<char>| #![auto] true implies spec_find(pushed, kk) == (
                    if kk == key@ {
                        Some(value)
                    } else {
                        spec_find(self.entries@, kk)
                    }) by {
                        lemma_find_push(self.entries@, (k, value), kk);
                        if kk == key@ {
                            assert(spec_find(self.entries@, kk) is None);
                        }
                    }
                }
                self.entries.push((k, value));
            },
        }
        Ok(())
    }

    /// Get the record under `key`, or `MissingEntry`.
    pub fn get_kv(&self, key: &String) -> (r: Result<StoredValue, StoreError>)
        requires
            self.wf(),
        ensures
            r is Ok <==> self.spec_get(key@) is Some,
            r is Ok ==> r->Ok_0.spec_eqv(self.spec_get(key@)->Some_0),
            r is Err ==> r->Err_0 is MissingEntry,
    {
        match find_index(&self.entries, key) {
            Some(i) => Ok(self.entries[i].1.clone()),
            None => Err(StoreError::MissingEntry),
        }
    }

    /// Delete the record under `key`, if any. With a lease the write is a
    /// transaction as in `put_kv`. Deleting an absent key succeeds.
    pub fn delete_kv(&mut self, lease: Option<&LeasePair>, key: &String) -> (r: Result<
        (),
        StoreError,
    >)
        requires
            old(self).wf(),
        ensures
            final(self).wf(),
            r is Ok <==> old(self).spec_write_allowed(match lease {
                Some(l) => Some(*l),
                None => None,
            }),
            r is Ok ==> final(self).spec_get(key@) is None,
            r is Ok ==> forall|k: Seq<char>|
                k != key@ ==> final(self).spec_get(k) == old(self).spec_get(k),
            r is Ok ==> final(self).locks@ == old(self).locks@,
            r is Err ==> *final(self) == *old(self) && r->Err_0 is FailedLock,
    {
        if let Some(l) = lease {
            if !self.holds_lock(l) {
                return Err(StoreError::FailedLock);
            }
        }
        match find_index(&self.entries, key) {
            Some(i) => {
                proof {
                    lemma_keep_unique_on_remove(self.entries@, i as int);
                    assert forall|kk: Seq<char>| #![auto] true implies spec_find(
                        self.entries@.remove(i as int),
                        kk,
                    ) == (if kk == key@ {
                        Option::<StoredValue>::None
                    } else {
                        spec_find(self.entries@, kk)
                    }) by {
                        lemma_find_remove(self.entries@, i as int, kk);
                    }
                }
                self.entries.remove(i);
            },
            None => {},
        }
        Ok(())
    }

    /// Take the lock key for a fresh lease: granted while nobody holds
    /// it, or when the present holder's lease has expired — that is the
    /// takeover after a crashed writer.
    pub fn grant_lock(&mut self, lock_key: &String, lease_id: u64, now: u64, ttl: u64) -> (granted:
        bool)
        requires
            old(self).wf(),
        ensures
            final(self).wf(),
            granted <==> (old(self).spec_lock_entry(lock_key@) is None || (old(self).spec_lock_entry(lock_key@) matches Some(e) && spec_lease_expired(e, now))),
            granted ==> final(self).spec_lock_entry(lock_key@) == Some(
                LockEntry { lease_id, expires_at: spec_expiry(now, ttl) },
            ),
            granted ==> forall|k: Seq<char>|
                k != lock_key@ ==> final(self).spec_lock_entry(k) == old(self).spec_lock_entry(k),
            !granted ==> *final(self) == *old(self),
            final(self).entries@ == old(self).entries@,
    {
        let expires_at: u64 = if ttl > u64::MAX - now {
            u64::MAX
        } else {
            now + ttl
        };
        let entry = LockEntry { lease_id, expires_at };
        match find_index(&self.locks, lock_key) {
            Some(i) => {
                if now > self.locks[i].1.expires_at {
                    // the holder's lease ran out: take the key over
                    let k = self.locks[i].0.clone();
                    proof {
                        lemma_keep_unique_on_update(self.locks@, i as int, (k, entry));
                        assert forall|kk: Seq<char>| #![auto] true implies spec_find(
                            self.locks@.update(i as int, (k, entry)),
                            kk,
                        ) == (if kk == lock_key@ {
                            Some(entry)
                        } else {
                            spec_find(self.locks@, kk)
                        }) by {
                            lemma_find_update(self.locks@, i as int, (k, entry), kk);
                        }
                    }
                    self.locks.set(i, (k, entry));
                    true
                } else {
                    false
                }
            },
            None => {
                let k = lock_key.clone();
                proof {
                    let pushed = self.locks@.push((k, entry));
                    assert forall|a: int, b: int|
                        0 <= a < b < pushed.len() implies pushed[a].0@ != pushed[b].0@ by {
                        if b < pushed.len() - 1 {
                            assert(pushed[a] == self.locks@[a]);
                            assert(pushed[b] == self.locks@[b]);
                        } else {
                            assert(pushed[b] == (k, entry));
                            assert(pushed[a] == self.locks@[a]);
                            if self.locks@[a].0@ == lock_key@ {
                                crate::kvlist::lemma_find_index(self.locks@, a, lock_key@);
                            }
                        }
                    }
                    assert forall|kk: Seq<char>| #![auto] true implies spec_find(pushed, kk) == (
                    if kk == lock_key@ {
                        Some(entry)
                    } else {
                        spec_find(self.locks@, kk)
                    }) by {
                        lemma_find_push(self.locks@, (k, entry), kk);
                        if kk == lock_key@ {
                            assert(spec_find(self.locks@, kk) is None);
                        }
                    }
                }
                self.locks.push((k, entry));
                true
            },
        }
    }

    /// Extend the lease on a held lock key: the keep-alive round of the
    /// lease keeper.
    pub fn refresh_lock(&mut self, lock_key: &String, lease_id: u64, now: u64, ttl: u64)
        requires
            old(self).wf(),
        ensures
            final(self).wf(),
            old(self).spec_lock_owner(lock_key@) == Some(lease_id) ==> final(self).spec_lock_entry(lock_key@) == Some(
                LockEntry { lease_id, expires_at: spec_expiry(now, ttl) },
            ),
            old(self).spec_lock_owner(lock_key@) != Some(lease_id) ==> *final(self) == *old(self),
            forall|k: Seq<char>|
                k != lock_key@ ==> final(self).spec_lock_entry(k) == old(self).spec_lock_entry(k),
            final(self).entries@ == old(self).entries@,
    {
        let expires_at: u64 = if ttl > u64::MAX - now {
            u64::MAX
        } else {
            now + ttl
        };
        let entry = LockEntry { lease_id, expires_at };
        match find_index(&self.locks, lock_key) {
            Some(i) => {
                if self.locks[i].1.lease_id == lease_id {
                    let k = self.locks[i].0.clone();
                    proof {
                        lemma_keep_unique_on_update(self.locks@, i as int, (k, entry));
                        assert forall|kk: Seq<char>| #![auto] true implies spec_find(
                            self.locks@.update(i as int, (k, entry)),
                            kk,
                        ) == (if kk == lock_key@ {
                            Some(entry)
                        } else {
                            spec_find(self.locks@, kk)
                        }) by {
                            lemma_find_update(self.locks@, i as int, (k, entry), kk);
                        }
                    }
                    self.locks.set(i, (k, entry));
                }
            },
            None => {},
        }
    }

    /// Release the lock key, provided this lease still holds it.
    pub fn release_lock(&mut self, lock_key: &String, lease_id: u64)
        requires
            old(self).wf(),
        ensures
            final(self).wf(),
            old(self).spec_lock_owner(lock_key@) == Some(lease_id) ==> final(self).spec_lock_owner(
                lock_key@,
            ) is None,
            old(self).spec_lock_owner(lock_key@) != Some(lease_id) ==> *final(self) == *old(self),
            forall|k: Seq<char>|
                k != lock_key@ ==> final(self).spec_lock_owner(k) == old(self).spec_lock_owner(k),
            final(self).entries@ == old(self).entries@,
    {
        match find_index(&self.locks, lock_key) {
            Some(i) => {
                if self.locks[i].1.lease_id == lease_id {
                    proof {
                        lemma_keep_unique_on_remove(self.locks@, i as int);
                        assert forall|kk: Seq<char>| #![auto] true implies spec_find(
                            self.locks@.remove(i as int),
                            kk,
                        ) == (if kk == lock_key@ {
                            Option::<LockEntry>::None
                        } else {
                            spec_find(self.locks@, kk)
                        }) by {
                            lemma_find_remove(self.locks@, i as int, kk);
                        }
                    }
                    self.locks.remove(i);
                }
            },
            None => {},
        }
    }
}

/// Whether the text `s` starts with the text `p`.
pub open spec fn spec_has_prefix(s: Seq<char>, p: Seq<char>) -> bool {
    p.len() <= s.len() && s.subrange(0, p.len() as int) == p
}

/// Whether the text `s` starts with the text `p`.
pub fn string_has_prefix(s: &String, p: &String) -> (r: bool)
    ensures
        r == spec_has_prefix(s@, p@),
{
    let sv = s.as_str();
    let pv = p.as_str();
    let sn = sv.unicode_len();
    let pn = pv.unicode_len();
    if pn > sn {
        return false;
    }
    let mut i: usize = 0;
    while i < pn
        invariant
            0 <= i <= pn,
            pn <= sn,
            sn == sv@.len(),
            pn == pv@.len(),
            sv@ == s@,
            pv@ == p@,
            forall|j: int| 0 <= j < i ==> s@[j] == p@[j],
        decreases pn - i,
    {
        if sv.get_char(i) != pv.get_char(i) {
            proof {
                assert(s@.subrange(0, p@.len() as int)[i as int] == s@[i as int]);
            }
            return false;
        }
        i = i + 1;
    }
    proof {
        assert(s@.subrange(0, p@.len() as int) =~= p@);
    }
    true
}

impl KeyValueStore {
    /// Retrieve the records whose keys carry the given prefix, in store
    /// order.
    pub fn get_values_prefix(&self, prefix: &String) -> (r: Vec<(String, StoredValue)>)
        ensures
            ({
                let picked = self.entries@.filter(
                    |e: (String, StoredValue)| spec_has_prefix(e.0@, prefix@),
                );
                &&& r@.len() == picked.len()
                &&& forall|i: int|
                    0 <= i < r@.len() ==> (#[trigger] r@[i]).0@ == picked[i].0@
                        && r@[i].1.spec_eqv(picked[i].1)
            }),
    {
        let ghost entries = self.entries@;
        let ghost pred = |e: (String, StoredValue)| spec_has_prefix(e.0@, prefix@);
        let mut r: Vec<(String, StoredValue)> = Vec::new();
        let mut i: usize = 0;
        proof {
            reveal(Seq::filter);
            assert(entries.take(0int).filter(pred) =~= Seq::<(String, StoredValue)>::empty());
        }
        while i < self.entries.len()
            invariant
                0 <= i <= self.entries@.len(),
                self.entries@ == entries,
                pred == (|e: (String, StoredValue)| spec_has_prefix(e.0@, prefix@)),
                r@.len() == entries.take(i as int).filter(pred).len(),
                forall|j: int|
                    0 <= j < r@.len() ==> (#[trigger] r@[j]).0@ == entries.take(i as int).filter(
                        pred,
                    )[j].0@ && r@[j].1.spec_eqv(entries.take(i as int).filter(pred)[j].1),
            decreases self.entries@.len() - i,
        {
            proof {
                reveal(Seq::filter);
                assert(entries.take(i as int + 1).drop_last() =~= entries.take(i as int));
                assert(entries.take(i as int + 1).last() == entries[i as int]);
            }
            if string_has_prefix(&self.entries[i].0, prefix) {
                let ghost r_before = r@;
                r.push((self.entries[i].0.clone(), self.entries[i].1.clone()));
                proof {
                    let picked = entries.take(i as int + 1).filter(pred);
                    assert forall|j: int|
                        0 <= j < r@.len() implies (#[trigger] r@[j]).0@ == picked[j].0@ && r@[
                        j
                    ].1.spec_eqv(picked[j].1) by {
                        if j < r@.len() - 1 {
                            assert(r@[j] == r_before[j]);
                            assert(picked[j] == entries.take(i as int).filter(pred)[j]);
                        } else {
                            assert(picked[j] == entries[i as int]);
                        }
                    }
                }
            }
            i = i + 1;
        }
        proof {
            assert(entries.take(entries.len() as int) =~= entries);
        }
        r
    }
}

/// Replacing an entry by one with the same key text keeps keys unique.
proof fn lemma_keep_unique_on_update<T>(entries: Seq<(String, T)>, i: int, e: (String, T))
    requires
        0 <= i < entries.len(),
        unique_keys(entries),
        e.0@ == entries[i].0@,
    ensures
        unique_keys(entries.update(i, e)),
{
    let updated = entries.update(i, e);
    assert forall|a: int, b: int| 0 <= a < b < updated.len() implies updated[a].0@
        != updated[b].0@ by {
        assert(entries[a].0@ != entries[b].0@);
    }
}

/// Removing an entry keeps keys unique.
proof fn lemma_keep_unique_on_remove<T>(entries: Seq<(String, T)>, i: int)
    requires
        0 <= i < entries.len(),
        unique_keys(entries),
    ensures
        unique_keys(entries.remove(i)),
{
    let removed = entries.remove(i);
    assert forall|a: int, b: int| 0 <= a < b < removed.len() implies removed[a].0@
        != removed[b].0@ by {
        if a < i && b < i {
            assert(removed[a] == entries[a]);
            assert(removed[b] == entries[b]);
        } else if a < i {
            assert(removed[a] == entries[a]);
            assert(removed[b] == entries[b + 1]);
        } else {
            assert(removed[a] == entries[a + 1]);
            assert(removed[b] == entries[b + 1]);
        }
    }
}

/// One event of a watch stream on a key: a new value was put, or the key
/// was deleted.
#[derive(Debug)]
pub enum WatchEvent {
    /// The key now holds this value.
    Put(String, StoredValue),
    /// The key was deleted.
    Delete,
}

/// Whether a watch stream ends after delivering this event: it terminates
/// on a delete and keeps going on every put.
pub fn watch_stops_after(event: &WatchEvent) -> (r: bool)
    ensures
        r == (*event is Delete),
{
    match event {
        WatchEvent::Put(_, _) => false,
        WatchEvent::Delete => true,
    }
}

/// Single-writer fencing: for one lock key, two leases with different ids
/// can never both commit a conditional write against the same store state;
/// at most one of them holds the lock.
pub proof fn lemma_single_writer_fencing(s: KeyValueStore, a: LeasePair, b: LeasePair)
    requires
        a.lock_key@ == b.lock_key@,
        a.lease_id != b.lease_id,
    ensures
        !(s.spec_write_allowed(Some(a)) && s.spec_write_allowed(Some(b))),
{
}

/// A writer whose lease no longer holds the lock key cannot commit any
/// further conditional write.
pub proof fn lemma_revoked_writer_fenced(s: KeyValueStore, a: LeasePair)
    requires
        s.spec_lock_owner(a.lock_key@) != Some(a.lease_id),
    ensures
        !s.spec_write_allowed(Some(a)),
{
}

} // verus!
