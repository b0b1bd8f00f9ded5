//! The persisted shapes of the records.
//!
//! Every record is stored at its address as a fixed-size byte span: a fixed
//! type tag owned by the host, then the variant's fields in declared order,
//! each of fixed width. The full length is reserved at creation. The
//! structs here are those per-variant shapes; each converts losslessly to
//! and from the unified `CounterRecord`.

use vstd::prelude::*;

use crate::counter::AccessPolicy;
use crate::counter::Addressing;
use crate::counter::CounterRecord;
use crate::keys::AccountKey;

verus! {

/// The host-owned type tag that prefixes every persisted record, in bytes.
pub const RECORD_TAG_LEN: usize = 8;

/// Persisted length of an owned counter: tag, owner key, value, seed, nonce.
pub const OWNED_COUNTER_LEN: usize = 8 + 32 + 8 + 8 + 1;

/// Persisted length of a derived shared counter: tag, value, seed, nonce.
pub const SHARED_DERIVED_COUNTER_LEN: usize = 8 + 8 + 8 + 1;

/// Persisted length of a registered shared counter: tag, value, id.
pub const SHARED_COUNTER_LEN: usize = 8 + 8 + 8;

/// Persisted length of the registry: tag, next id, nonce.
pub const SHARED_COUNTER_REGISTRY_LEN: usize = 8 + 8 + 1;

/// The persisted shape of an owned counter.
#[derive(Clone, Copy, Debug)]
pub struct OwnedCounter {
    pub owner: AccountKey,
    pub value: u64,
    pub seed: u64,
    pub bump: u8,
}

impl OwnedCounter {
    /// The unified record this shape stores.
    pub fn to_record(&self) -> (r: CounterRecord)
        ensures
            r.policy == (AccessPolicy::OwnedBy { authority: self.owner }),
            r.addressing == (Addressing::Derived { seed: self.seed, bump: self.bump }),
            r.value == self.value,
    {
        CounterRecord {
            policy: AccessPolicy::OwnedBy { authority: self.owner },
            addressing: Addressing::Derived { seed: self.seed, bump: self.bump },
            value: self.value,
        }
    }

    /// Recover the shape from a unified record; nothing when the record is
    /// not an owned counter at a derived address.
    pub fn from_record(record: &CounterRecord) -> (r: Option<OwnedCounter>)
        ensures
            match (record.policy, record.addressing) {
                (
                    AccessPolicy::OwnedBy { authority },
                    Addressing::Derived { seed, bump },
                ) => r == Some(
                    (OwnedCounter { owner: authority, value: record.value, seed, bump }),
                ),
                _ => r is None,
            },
    {
        match (&record.policy, &record.addressing) {
            (
                AccessPolicy::OwnedBy { authority },
                Addressing::Derived { seed, bump },
            ) => Some(OwnedCounter { owner: *authority, value: record.value, seed: *seed, bump: *bump }),
            _ => None,
        }
    }
}

/// The persisted shape of a derived shared counter.
#[derive(Clone, Copy, Debug)]
pub struct SharedDerivedCounter {
    pub value: u64,
    pub seed: u64,
    pub bump: u8,
}

impl SharedDerivedCounter {
    /// The unified record this shape stores.
    pub fn to_record(&self) -> (r: CounterRecord)
        ensures
            r.policy == AccessPolicy::Shared,
            r.addressing == (Addressing::Derived { seed: self.seed, bump: self.bump }),
            r.value == self.value,
    {
        CounterRecord {
            policy: AccessPolicy::Shared,
            addressing: Addressing::Derived { seed: self.seed, bump: self.bump },
            value: self.value,
        }
    }

    /// Recover the shape from a unified record; nothing when the record is
    /// not a shared counter at a derived address.
    pub fn from_record(record: &CounterRecord) -> (r: Option<SharedDerivedCounter>)
        ensures
            match (record.policy, record.addressing) {
                (AccessPolicy::Shared, Addressing::Derived { seed, bump }) => r == Some(
                    (SharedDerivedCounter { value: record.value, seed, bump }),
                ),
                _ => r is None,
            },
    {
        match (&record.policy, &record.addressing) {
            (AccessPolicy::Shared, Addressing::Derived { seed, bump }) => Some(
                SharedDerivedCounter { value: record.value, seed: *seed, bump: *bump },
            ),
            _ => None,
        }
    }
}

/// The persisted shape of a registered shared counter.
#[derive(Clone, Copy, Debug)]
pub struct SharedCounter {
    pub value: u64,
    pub id: u64,
}

impl SharedCounter {
    /// The unified record this shape stores.
    pub fn to_record(&self) -> (r: CounterRecord)
        ensures
            r.policy == AccessPolicy::Shared,
            r.addressing == (Addressing::Registered { id: self.id }),
            r.value == self.value,
    {
        CounterRecord {
            policy: AccessPolicy::Shared,
            addressing: Addressing::Registered { id: self.id },
            value: self.value,
        }
    }

    /// Recover the shape from a unified record; nothing when the record is
    /// not a registered shared counter.
    pub fn from_record(record: &CounterRecord) -> (r: Option<SharedCounter>)
        ensures
            match (record.policy, record.addressing) {
                (AccessPolicy::Shared, Addressing::Registered { id }) => r == Some(
                    (SharedCounter { value: record.value, id }),
                ),
                _ => r is None,
            },
    {
        match (&record.policy, &record.addressing) {
            (AccessPolicy::Shared, Addressing::Registered { id }) => Some(
                SharedCounter { value: record.value, id: *id },
            ),
            _ => None,
        }
    }
}

} // verus!
