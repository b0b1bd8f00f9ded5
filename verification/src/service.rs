//! The counter service: creation of records and of the registry.
//!
//! One parameterized `create` covers every variant. It computes the address
//! or id a new record belongs under and builds the record's initial state;
//! the external store then reserves the full record length at that address
//! and persists it, refusing an address that already holds a record. The
//! registry's uninitialized state is modeled as the absence of its record,
//! which is exactly what the store reports before `initialize_registry`.

use vstd::prelude::*;

use crate::address::derive_counter_address;
use crate::address::pda_of;
use crate::address::spec_counter_seeds;
use crate::counter::AccessPolicy;
use crate::counter::Addressing;
use crate::counter::CounterRecord;
use crate::errors::ErrorCode;
use crate::keys::AccountKey;
use crate::registry::SharedCounterRegistry;

verus! {

/// The three counter variants. The capability table below — whether
/// mutation demands authorization, and how the record is addressed — is
/// fixed per variant at creation and never toggled.
#[derive(Clone, Copy, Debug, PartialEq, Eq, Structural)]
pub enum CounterVariant {
    Owned,
    SharedDerived,
    SharedRegistered,
}

impl CounterVariant {
    /// Whether mutating a counter of this variant demands the guard.
    pub open spec fn spec_requires_authorization(self) -> bool {
        self is Owned
    }

    /// Executable form of the capability: only the owned variant guards
    /// its mutations.
    pub fn requires_authorization(self) -> (r: bool)
        ensures
            r == self.spec_requires_authorization(),
    {
        matches!(self, CounterVariant::Owned)
    }

    /// Whether records of this variant live under registry-assigned ids
    /// rather than derived addresses.
    pub open spec fn spec_registry_addressed(self) -> bool {
        self is SharedRegistered
    }

    /// Executable form of the addressing capability.
    pub fn registry_addressed(self) -> (r: bool)
        ensures
            r == self.spec_registry_addressed(),
    {
        matches!(self, CounterVariant::SharedRegistered)
    }
}

/// What a caller asks `create` for, with the inputs the chosen variant
/// needs: derived variants bring a creator and a seed, the registered
/// variant brings the fresh address the store allocated for the record.
#[derive(Clone, Copy, Debug)]
pub enum CreateRequest {
    Owned { authority: AccountKey, seed: u64 },
    SharedDerived { creator: AccountKey, seed: u64 },
    SharedRegistered { address: AccountKey },
}

impl CreateRequest {
    /// The variant this request creates.
    pub open spec fn spec_variant(self) -> CounterVariant {
        match self {
            CreateRequest::Owned { .. } => CounterVariant::Owned,
            CreateRequest::SharedDerived { .. } => CounterVariant::SharedDerived,
            CreateRequest::SharedRegistered { .. } => CounterVariant::SharedRegistered,
        }
    }
}

/// Where a created counter lives: its address and its variant tag.
#[derive(Clone, Copy, Debug)]
pub struct CounterHandle {
    pub address: AccountKey,
    pub variant: CounterVariant,
}

/// Create the registry record, which must happen exactly once per
/// deployment: the external store refuses a second creation at the
/// registry's fixed address, surfaced here as `AddressInUse` when the
/// record is already present. A fresh registry assigns ids from 1.
pub fn initialize_registry(bump: u8, registry: &mut Option<SharedCounterRegistry>) -> (r: Result<
    (),
    ErrorCode,
>)
    ensures
        (*old(registry)) is None ==> r == Ok::<(), ErrorCode>(()) && *final(registry) == Some(
            (SharedCounterRegistry { next_id: 1, bump }),
        ),
        (*old(registry)) is Some ==> r == Err::<(), ErrorCode>(ErrorCode::AddressInUse)
            && *final(registry) == *old(registry),
{
    if registry.is_some() {
        Err(ErrorCode::AddressInUse)
    } else {
        *registry = Some(SharedCounterRegistry::new(bump));
        Ok(())
    }
}

/// Create a counter record: derive its address or allocate its id per the
/// requested variant, and build the initial state the store is to persist —
/// value 0 and the variant's metadata.
///
/// Fails with `DerivationExhausted` when no nonce yields a valid address,
/// with `RegistryUninitialized` when the registered variant is asked for
/// before `initialize_registry`, and with `Overflow` when the id space is
/// exhausted; on any failure the registry is left unchanged. A derived
/// creation never touches the registry.
pub fn create(
    program: &AccountKey,
    tag: &Vec<u8>,
    request: &CreateRequest,
    registry: &mut Option<SharedCounterRegistry>,
) -> (r: Result<(CounterHandle, CounterRecord), ErrorCode>)
    ensures
        match *request {
            CreateRequest::Owned { authority, seed } => *final(registry) == *old(registry)
                && match pda_of(program@, spec_counter_seeds(tag@, authority@, seed)) {
                Some(p) => r matches Ok(c) && c.0.address@ == p.0 && c.0.variant
                    == CounterVariant::Owned && c.1.value == 0 && c.1.policy
                    == (AccessPolicy::OwnedBy { authority }) && c.1.addressing
                    == (Addressing::Derived { seed, bump: p.1 }),
                None => r == Err::<(CounterHandle, CounterRecord), ErrorCode>(
                    ErrorCode::DerivationExhausted,
                ),
            },
            CreateRequest::SharedDerived { creator, seed } => *final(registry) == *old(registry)
                && match pda_of(program@, spec_counter_seeds(tag@, creator@, seed)) {
                Some(p) => r matches Ok(c) && c.0.address@ == p.0 && c.0.variant
                    == CounterVariant::SharedDerived && c.1.value == 0 && c.1.policy
                    == AccessPolicy::Shared && c.1.addressing == (Addressing::Derived {
                    seed,
                    bump: p.1,
                }),
                None => r == Err::<(CounterHandle, CounterRecord), ErrorCode>(
                    ErrorCode::DerivationExhausted,
                ),
            },
            CreateRequest::SharedRegistered { address } => match *old(registry) {
                None => r == Err::<(CounterHandle, CounterRecord), ErrorCode>(
                    ErrorCode::RegistryUninitialized,
                ) && *final(registry) == *old(registry),
                Some(reg) => match reg.spec_allocate() {
                    Some(p) => r matches Ok(c) && c.0.address == address && c.0.variant
                        == CounterVariant::SharedRegistered && c.1.value == 0 && c.1.policy
                        == AccessPolicy::Shared && c.1.addressing == (Addressing::Registered {
                        id: p.1,
                    }) && *final(registry) == Some(p.0),
                    None => r == Err::<(CounterHandle, CounterRecord), ErrorCode>(
                        ErrorCode::Overflow,
                    ) && *final(registry) == *old(registry),
                },
            },
        },
{
    match request {
        CreateRequest::Owned { authority, seed } => {
            match derive_counter_address(program, tag, authority, *seed) {
                Ok(found) => Ok(
                    (
                        CounterHandle { address: found.0, variant: CounterVariant::Owned },
                        CounterRecord::new_owned(*authority, *seed, found.1),
                    ),
                ),
                Err(e) => Err(e),
            }
        },
        CreateRequest::SharedDerived { creator, seed } => {
            match derive_counter_address(program, tag, creator, *seed) {
                Ok(found) => Ok(
                    (
                        CounterHandle { address: found.0, variant: CounterVariant::SharedDerived },
                        CounterRecord::new_shared_derived(*seed, found.1),
                    ),
                ),
                Err(e) => Err(e),
            }
        },
        CreateRequest::SharedRegistered { address } => {
            match *registry {
                None => Err(ErrorCode::RegistryUninitialized),
                Some(mut reg) => {
                    match reg.allocate() {
                        Ok(id) => {
                            *registry = Some(reg);
                            Ok(
                                (
                                    CounterHandle {
                                        address: *address,
                                        variant: CounterVariant::SharedRegistered,
                                    },
                                    CounterRecord::new_registered(id),
                                ),
                            )
                        },
                        Err(e) => Err(e),
                    }
                },
            }
        },
    }
}

} // verus!
