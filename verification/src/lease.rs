//! The lease keeper: the singleton-writer election against the store.
//! One keeper grants a lease, takes the well-known lock key with it,
//! refreshes it at a third of the TTL, and signals loss; while its lease
//! holds the lock, no other writer's conditional write can commit.

use crate::store::{KeyValueStore, LeasePair, StoreError};
use vstd::prelude::*;

verus! {

/// The keeper of one lease: the granted lease, its lock key, the TTL and
/// the clock reading of the last successful refresh.
#[derive(Debug)]
pub struct LeaseKeeper {
    /// Id of the granted lease.
    pub lease_id: u64,
    /// The well-known lock key the lease holds.
    pub lock_key: String,
    /// Lease time to live, in clock ticks.
    pub ttl: u64,
    /// When the lease was last refreshed.
    pub last_refresh: u64,
    /// Whether the lease has been lost.
    pub lost: bool,
}

impl LeaseKeeper {
    /// Start the election: take the lock key with a fresh lease. The
    /// keeper exists only when nobody holds the key, or when the present
    /// holder's lease has expired and the key can be taken over.
    pub fn start(store: &mut KeyValueStore, lock_key: String, lease_id: u64, ttl: u64, now: u64)
        -> (r: Option<LeaseKeeper>)
        requires
            old(store).wf(),
        ensures
            final(store).wf(),
            r is Some <==> (old(store).spec_lock_entry(lock_key@) is None || (old(store).spec_lock_entry(lock_key@) matches Some(e) && crate::store::spec_lease_expired(
                e,
                now,
            ))),
            r is Some ==> final(store).spec_lock_owner(lock_key@) == Some(lease_id),
            r is Some ==> {
                let k = r->Some_0;
                &&& k.lease_id == lease_id
                &&& k.lock_key@ == lock_key@
                &&& k.ttl == ttl
                &&& k.last_refresh == now
                &&& !k.lost
            },
            r is None ==> *final(store) == *old(store),
            final(store).entries@ == old(store).entries@,
    {
        if store.grant_lock(&lock_key, lease_id, now, ttl) {
            Some(LeaseKeeper { lease_id, lock_key, ttl, last_refresh: now, lost: false })
        } else {
            None
        }
    }

    /// The lease-lock pair for conditional writes, or `NotReady` once the
    /// lease is lost.
    pub fn lease_lock(&self) -> (r: Result<LeasePair, StoreError>)
        ensures
            r is Ok <==> !self.lost,
            r is Ok ==> r->Ok_0.lease_id == self.lease_id && r->Ok_0.lock_key@ == self.lock_key@,
            r is Err ==> r->Err_0 is NotReady,
    {
        if self.lost {
            Err(StoreError::NotReady)
        } else {
            Ok(LeasePair { lease_id: self.lease_id, lock_key: self.lock_key.clone() })
        }
    }

    /// Whether the keep-alive task is due: it refreshes at a third of the
    /// TTL.
    pub fn refresh_due(&self, now: u64) -> (r: bool)
        ensures
            r == (now >= self.last_refresh + self.ttl / 3),
    {
        now >= self.last_refresh && now - self.last_refresh >= self.ttl / 3
    }

    /// A keep-alive round succeeded: the TTL starts anew, in the keeper
    /// and at the store's lock entry alike.
    pub fn on_refreshed(&mut self, store: &mut KeyValueStore, now: u64)
        requires
            old(store).wf(),
        ensures
            *final(self) == (LeaseKeeper { last_refresh: now, ..*old(self) }),
            final(store).wf(),
            final(store).entries@ == old(store).entries@,
            old(store).spec_lock_owner(old(self).lock_key@) == Some(old(self).lease_id) ==> final(store).spec_lock_entry(old(self).lock_key@) == Some(
                crate::store::LockEntry {
                    lease_id: old(self).lease_id,
                    expires_at: crate::store::spec_expiry(now, old(self).ttl),
                },
            ),
            forall|k: Seq<char>|
                k != old(self).lock_key@ ==> final(store).spec_lock_entry(k) == old(store).spec_lock_entry(k),
    {
        store.refresh_lock(&self.lock_key, self.lease_id, now, self.ttl);
        self.last_refresh = now;
    }

    /// The clock ticked: a lease unrefreshed past its TTL is lost, and
    /// every conditional write after that is refused.
    pub fn check_expiry(&mut self, now: u64)
        ensures
            now - old(self).last_refresh > old(self).ttl ==> final(self).lost,
            now - old(self).last_refresh <= old(self).ttl ==> *final(self) == *old(self),
            final(self).lease_id == old(self).lease_id,
            final(self).lock_key == old(self).lock_key,
            final(self).ttl == old(self).ttl,
            final(self).last_refresh == old(self).last_refresh,
    {
        if now >= self.last_refresh && now - self.last_refresh > self.ttl {
            self.lost = true;
        }
    }

    /// Revoke the lease and release the lock key.
    pub fn revoke(self, store: &mut KeyValueStore)
        requires
            old(store).wf(),
        ensures
            final(store).wf(),
            old(store).spec_lock_owner(self.lock_key@) == Some(self.lease_id) ==> final(store).spec_lock_owner(self.lock_key@) is None,
            final(store).entries@ == old(store).entries@,
    {
        store.release_lock(&self.lock_key, self.lease_id);
    }
}

} // verus!
