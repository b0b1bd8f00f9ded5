//! The authorization guard for owned counters.
//!
//! An owned counter answers only to its stored authority; the guard compares
//! the verified identity of the live caller against that key. Shared
//! counters skip the guard entirely — a fixed two-state policy chosen at
//! creation, never toggled afterwards.

use vstd::prelude::*;

use crate::errors::ErrorCode;
use crate::keys::AccountKey;

verus! {

/// Accept the caller exactly when the claimed identity is the stored
/// authority; refuse any other identity with `NotOwner`.
pub fn authorize(stored: &AccountKey, claimed: &AccountKey) -> (r: Result<(), ErrorCode>)
    ensures
        stored@ == claimed@ ==> r == Ok::<(), ErrorCode>(()),
        stored@ != claimed@ ==> r == Err::<(), ErrorCode>(ErrorCode::NotOwner),
{
    if *stored == *claimed {
        Ok(())
    } else {
        Err(ErrorCode::NotOwner)
    }
}

} // verus!
