//! The error taxonomy shared by every counter operation.

use vstd::prelude::*;

verus! {

/// Why a counter operation was refused.
///
/// `NotOwner` and `Overflow` are computed by this library. `InvalidId` is
/// reserved for id validation on registry lookups and is never raised today.
/// `DerivationExhausted` reports that no nonce yields a valid derived
/// address. `AddressInUse` and `RegistryUninitialized` surface conditions
/// that the external account store detects.
#[derive(Clone, Copy, Debug, PartialEq, Eq, Structural)]
pub enum ErrorCode {
    NotOwner,
    Overflow,
    InvalidId,
    DerivationExhausted,
    AddressInUse,
    RegistryUninitialized,
}

impl ErrorCode {
    /// A short human-readable description of the error.
    pub fn message(&self) -> (r: &'static str)
        ensures
            r@ == match self {
                ErrorCode::NotOwner => "not owner"@,
                ErrorCode::Overflow => "overflow"@,
                ErrorCode::InvalidId => "invalid id"@,
                ErrorCode::DerivationExhausted => "derivation exhausted"@,
                ErrorCode::AddressInUse => "address in use"@,
                ErrorCode::RegistryUninitialized => "registry uninitialized"@,
            },
    {
        let s: &'static str = match self {
            ErrorCode::NotOwner => "not owner",
            ErrorCode::Overflow => "overflow",
            ErrorCode::InvalidId => "invalid id",
            ErrorCode::DerivationExhausted => "derivation exhausted",
            ErrorCode::AddressInUse => "address in use",
            ErrorCode::RegistryUninitialized => "registry uninitialized",
        };
        proof {
            reveal_strlit("not owner");
            reveal_strlit("overflow");
            reveal_strlit("invalid id");
            reveal_strlit("derivation exhausted");
            reveal_strlit("address in use");
            reveal_strlit("registry uninitialized");
        }
        s
    }
}

} // verus!
