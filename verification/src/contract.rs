//! A model of the cluster coordinator: the on-chain contract that stores the
//! group's shared public key, together with the indexer tables built from its
//! events.
//!
//! The real coordinator lives on a ledger outside this crate; this model
//! states and enforces its contract — bootstrap happens at most once,
//! registrations and admissions are append-only — and lets whole protocol
//! runs be exercised in tests.

use vstd::prelude::*;
use crate::records::{OnboardedObject, PendingObject};

verus! {

/// The contract's instance-storage keys.
pub enum DataKey {
    SharedPub,
}

/// The coordinator's state: the group's shared public key (set by the one
/// successful bootstrap) and the append-only registration and admission logs.
pub struct ClusterContract {
    pub shared_public: Option<Vec<u8>>,
    pub pending: Vec<PendingObject>,
    pub onboarded: Vec<OnboardedObject>,
}

impl ClusterContract {
    /// A coordinator with no group bootstrapped and empty logs.
    pub fn new() -> (r: Self)
        ensures
            r.shared_public is None,
            r.pending@ == Seq::<PendingObject>::empty(),
            r.onboarded@ == Seq::<OnboardedObject>::empty(),
    {
        ClusterContract { shared_public: None, pending: Vec::new(), onboarded: Vec::new() }
    }

    /// Whether the given storage key is set.
    pub fn has(&self, key: &DataKey) -> (r: bool)
        ensures
            r <==> self.shared_public is Some,
    {
        match key {
            DataKey::SharedPub => self.shared_public.is_some(),
        }
    }

    /// Records the group's shared public key. At most one bootstrap ever
    /// succeeds: a second call is refused and changes nothing.
    pub fn bootstrap(&mut self, shared_public: Vec<u8>, quote: Vec<u8>) -> (r: bool)
        ensures
            old(self).shared_public is Some ==> !r && *final(self) == *old(self),
            old(self).shared_public is None ==> r && final(self).shared_public == Some(
                shared_public,
            ) && final(self).pending == old(self).pending && final(self).onboarded == old(
                self,
            ).onboarded,
    {
        if self.shared_public.is_some() {
            return false;
        }
        self.shared_public = Some(shared_public);
        true
    }

    /// Appends a registration. Refused (and a no-op) before the group is
    /// bootstrapped.
    pub fn register(&mut self, node_pubkey: Vec<u8>, quote: Vec<u8>, now: i64) -> (r: bool)
        ensures
            old(self).shared_public is None ==> !r && *final(self) == *old(self),
            old(self).shared_public is Some ==> r && final(self).pending@ == old(
                self,
            ).pending@.push(
                (PendingObject { pubkey: node_pubkey, quote, at_time: now }),
            ) && final(self).shared_public == old(self).shared_public && final(self).onboarded
                == old(self).onboarded,
    {
        if self.shared_public.is_none() {
            return false;
        }
        self.pending.push(PendingObject { pubkey: node_pubkey, quote, at_time: now });
        true
    }

    /// Appends an admission. Refused (and a no-op) before the group is
    /// bootstrapped. Anyone may post one; forged entries fail the joiner's
    /// unseal.
    pub fn onboard(&mut self, node_pubkey: Vec<u8>, encrypted: Vec<u8>, now: i64) -> (r: bool)
        ensures
            old(self).shared_public is None ==> !r && *final(self) == *old(self),
            old(self).shared_public is Some ==> r && final(self).onboarded@ == old(
                self,
            ).onboarded@.push(
                (OnboardedObject { node_pubkey, shared_secret: encrypted, at_time: now }),
            ) && final(self).shared_public == old(self).shared_public && final(self).pending
                == old(self).pending,
    {
        if self.shared_public.is_none() {
            return false;
        }
        self.onboarded.push(OnboardedObject { node_pubkey, shared_secret: encrypted, at_time: now });
        true
    }

    /// All registrations posted so far.
    pub fn pending(&self) -> (r: &Vec<PendingObject>)
        ensures
            r == self.pending,
    {
        &self.pending
    }

    /// All admissions posted so far.
    pub fn onboarded(&self) -> (r: &Vec<OnboardedObject>)
        ensures
            r == self.onboarded,
    {
        &self.onboarded
    }
}

} // verus!
