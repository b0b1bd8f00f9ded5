//! Overflow-safe arithmetic on the stored 64-bit value.
//!
//! Incrementing is checked: at `u64::MAX` it reports `Overflow` instead of
//! wrapping. Assigning is deliberately unchecked — a direct set is not an
//! accumulation, so no overflow can arise. That asymmetry is a designed
//! part of the contract, not an oversight.

use vstd::prelude::*;

use crate::errors::ErrorCode;

verus! {

/// What a checked increment yields: the successor, or nothing at the top of
/// the `u64` range.
pub open spec fn spec_checked_increment(value: u64) -> Option<u64> {
    if value < u64::MAX {
        Some((value + 1) as u64)
    } else {
        None
    }
}

/// Overflow-safe increment: `value + 1`, or `Overflow` when `value` is
/// already `u64::MAX`.
pub fn checked_increment(value: u64) -> (r: Result<u64, ErrorCode>)
    ensures
        value < u64::MAX ==> r == Ok::<u64, ErrorCode>((value + 1) as u64),
        value == u64::MAX ==> r == Err::<u64, ErrorCode>(ErrorCode::Overflow),
{
    if value < u64::MAX {
        Ok(value + 1)
    } else {
        Err(ErrorCode::Overflow)
    }
}

/// Unconditional replacement. Any `u64` is accepted, `0` and `u64::MAX`
/// included: a direct assignment cannot overflow and is never checked.
pub fn assign(new_value: u64) -> (r: u64)
    ensures
        r == new_value,
{
    new_value
}

/// The value after `n` increments from `start`, or nothing if any increment
/// along the way would overflow.
pub open spec fn spec_increment_n(start: u64, n: nat) -> Option<u64>
    decreases n,
{
    if n == 0 {
        Some(start)
    } else {
        match spec_increment_n(start, (n - 1) as nat) {
            Some(v) => spec_checked_increment(v),
            None => None,
        }
    }
}

/// No increment is lost or duplicated: as long as the sum stays in range,
/// `n` successive increments from `start` all succeed and add exactly `n`.
pub proof fn lemma_increment_n_adds(start: u64, n: nat)
    requires
        start + n <= u64::MAX,
    ensures
        spec_increment_n(start, n) == Some((start + n) as u64),
    decreases n,
{
    if n > 0 {
        lemma_increment_n_adds(start, (n - 1) as nat);
    }
}

/// A record created with value `0` and incremented `n` times without failure
/// holds exactly `n`.
pub proof fn lemma_increments_from_zero(n: nat)
    requires
        n <= u64::MAX,
    ensures
        spec_increment_n(0, n) == Some(n as u64),
{
    lemma_increment_n_adds(0, n);
}

} // verus!
