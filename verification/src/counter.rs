//! The counter record and its two mutations.
//!
//! One tagged record type covers every variant: the access policy says who
//! may mutate, the addressing says how the record was placed in the account
//! space. Both are fixed at creation; only `value` ever changes afterwards,
//! and only through a checked increment or a direct assignment.

use vstd::prelude::*;

use crate::arith::checked_increment;
use crate::arith::spec_checked_increment;
use crate::auth::authorize;
use crate::errors::ErrorCode;
use crate::keys::AccountKey;

verus! {

/// Who may mutate a counter: only the stored authority, or any caller.
#[derive(Clone, Copy, Debug)]
pub enum AccessPolicy {
    OwnedBy { authority: AccountKey },
    Shared,
}

/// How a counter was placed in the account space: at an address derived
/// from creator and seed (with the nonce that made the derivation valid),
/// or at an arbitrary fresh address under a registry-assigned id.
#[derive(Clone, Copy, Debug, PartialEq, Eq, Structural)]
pub enum Addressing {
    Derived { seed: u64, bump: u8 },
    Registered { id: u64 },
}

/// A persistent counter: a 64-bit value plus the metadata that decides who
/// may change it. Policy and addressing never change after creation.
#[derive(Clone, Copy, Debug)]
pub struct CounterRecord {
    pub policy: AccessPolicy,
    pub addressing: Addressing,
    pub value: u64,
}

impl CounterRecord {
    /// Whether `caller` may mutate this record: for an owned counter only
    /// the stored authority, for a shared counter anyone.
    pub open spec fn authorized(self, caller: AccountKey) -> bool {
        match self.policy {
            AccessPolicy::OwnedBy { authority } => authority@ == caller@,
            AccessPolicy::Shared => true,
        }
    }

    /// The metadata a mutation must not touch.
    pub open spec fn same_metadata(self, other: CounterRecord) -> bool {
        self.policy == other.policy && self.addressing == other.addressing
    }

    /// A fresh owned counter at a derived address: value 0, mutable only by
    /// `authority`.
    pub fn new_owned(authority: AccountKey, seed: u64, bump: u8) -> (r: CounterRecord)
        ensures
            r.value == 0,
            r.policy == (AccessPolicy::OwnedBy { authority }),
            r.addressing == (Addressing::Derived { seed, bump }),
    {
        CounterRecord {
            policy: AccessPolicy::OwnedBy { authority },
            addressing: Addressing::Derived { seed, bump },
            value: 0,
        }
    }

    /// A fresh shared counter at a derived address: value 0, mutable by any
    /// caller.
    pub fn new_shared_derived(seed: u64, bump: u8) -> (r: CounterRecord)
        ensures
            r.value == 0,
            r.policy == AccessPolicy::Shared,
            r.addressing == (Addressing::Derived { seed, bump }),
    {
        CounterRecord {
            policy: AccessPolicy::Shared,
            addressing: Addressing::Derived { seed, bump },
            value: 0,
        }
    }

    /// A fresh shared counter under a registry-assigned id: value 0,
    /// mutable by any caller.
    pub fn new_registered(id: u64) -> (r: CounterRecord)
        ensures
            r.value == 0,
            r.policy == AccessPolicy::Shared,
            r.addressing == (Addressing::Registered { id }),
    {
        CounterRecord {
            policy: AccessPolicy::Shared,
            addressing: Addressing::Registered { id },
            value: 0,
        }
    }

    /// Run the authorization guard for this record's policy: a shared
    /// counter accepts any caller, an owned counter only its authority.
    pub fn check_access(&self, caller: &AccountKey) -> (r: Result<(), ErrorCode>)
        ensures
            self.authorized(*caller) ==> r == Ok::<(), ErrorCode>(()),
            !self.authorized(*caller) ==> r == Err::<(), ErrorCode>(ErrorCode::NotOwner),
    {
        match &self.policy {
            AccessPolicy::OwnedBy { authority } => authorize(authority, caller),
            AccessPolicy::Shared => Ok(()),
        }
    }

    /// Add one to the value and return the new value. Refuse a caller that
    /// the policy does not authorize with `NotOwner`, and a value of
    /// `u64::MAX` with `Overflow`; on any failure the record is left
    /// exactly as it was.
    pub fn increment(&mut self, caller: &AccountKey) -> (r: Result<u64, ErrorCode>)
        ensures
            !old(self).authorized(*caller) ==> r == Err::<u64, ErrorCode>(ErrorCode::NotOwner)
                && *final(self) == *old(self),
            old(self).authorized(*caller) ==> match spec_checked_increment(old(self).value) {
                Some(v) => r == Ok::<u64, ErrorCode>(v) && final(self).value == v
                    && final(self).same_metadata(*old(self)),
                None => r == Err::<u64, ErrorCode>(ErrorCode::Overflow)
                    && *final(self) == *old(self),
            },
    {
        if let Err(e) = self.check_access(caller) {
            return Err(e);
        }
        match checked_increment(self.value) {
            Ok(v) => {
                self.value = v;
                Ok(v)
            },
            Err(e) => Err(e),
        }
    }

    /// Replace the value outright. Refuse a caller that the policy does not
    /// authorize with `NotOwner` and leave the record unchanged; an
    /// authorized caller always succeeds, whatever the new value — a direct
    /// assignment is never overflow-checked.
    pub fn set_value(&mut self, caller: &AccountKey, new_value: u64) -> (r: Result<
        (),
        ErrorCode,
    >)
        ensures
            !old(self).authorized(*caller) ==> r == Err::<(), ErrorCode>(ErrorCode::NotOwner)
                && *final(self) == *old(self),
            old(self).authorized(*caller) ==> r == Ok::<(), ErrorCode>(()) && final(self).value
                == new_value && final(self).same_metadata(*old(self)),
    {
        if let Err(e) = self.check_access(caller) {
            return Err(e);
        }
        self.value = crate::arith::assign(new_value);
        Ok(())
    }
}

} // verus!
