//! The singleton id registry for registered shared counters.
//!
//! Exactly one registry record exists per deployment, at a fixed well-known
//! address; the external store's create-once semantics enforce that, and the
//! ledger serializes all operations touching the record. The registry hands
//! out dense, strictly increasing ids starting at 1, and never reuses one.

use vstd::prelude::*;

use crate::errors::ErrorCode;

verus! {

/// The singleton record behind the registered counter variant: the next id
/// to assign, and the nonce under which the record's own address was
/// derived.
#[derive(Clone, Copy, Debug)]
pub struct SharedCounterRegistry {
    pub next_id: u64,
    pub bump: u8,
}

impl SharedCounterRegistry {
    /// An active registry never hands out the id 0: `next_id` starts at 1
    /// and only ever grows.
    pub open spec fn well_formed(self) -> bool {
        self.next_id >= 1
    }

    /// What one allocation yields: the current `next_id` and the registry
    /// advanced by one, or nothing once the id space is exhausted.
    pub open spec fn spec_allocate(self) -> Option<(SharedCounterRegistry, u64)> {
        if self.next_id < u64::MAX {
            Some(
                (
                    SharedCounterRegistry { next_id: (self.next_id + 1) as u64, bump: self.bump },
                    self.next_id,
                ),
            )
        } else {
            None
        }
    }

    /// A fresh registry, as `initialize_registry` writes it: ids start at 1.
    pub fn new(bump: u8) -> (r: SharedCounterRegistry)
        ensures
            r.next_id == 1,
            r.bump == bump,
            r.well_formed(),
    {
        SharedCounterRegistry { next_id: 1, bump }
    }

    /// Assign the next id: return the current `next_id` and advance it by
    /// exactly one. Refuse with `Overflow` once the id space is exhausted,
    /// leaving the registry unchanged.
    pub fn allocate(&mut self) -> (r: Result<u64, ErrorCode>)
        ensures
            match old(self).spec_allocate() {
                Some(p) => r == Ok::<u64, ErrorCode>(p.1) && *final(self) == p.0,
                None => r == Err::<u64, ErrorCode>(ErrorCode::Overflow)
                    && *final(self) == *old(self),
            },
            old(self).well_formed() ==> final(self).well_formed(),
    {
        if self.next_id < u64::MAX {
            let id = self.next_id;
            self.next_id = self.next_id + 1;
            Ok(id)
        } else {
            Err(ErrorCode::Overflow)
        }
    }
}

/// The registry and the ids it has handed out after `n` successive
/// allocations, or nothing if any allocation along the way fails.
pub open spec fn spec_ids_after(r: SharedCounterRegistry, n: nat) -> Option<
    (SharedCounterRegistry, Seq<u64>),
>
    decreases n,
{
    if n == 0 {
        Some((r, Seq::empty()))
    } else {
        match spec_ids_after(r, (n - 1) as nat) {
            Some(p) => match p.0.spec_allocate() {
                Some(q) => Some((q.0, p.1.push(q.1))),
                None => None,
            },
            None => None,
        }
    }
}

/// Allocation is monotone and gapless: while the id space lasts, `n`
/// successive allocations all succeed, the i-th one returns
/// `next_id + i`, and the registry ends at `next_id + n`.
pub proof fn lemma_ids_sequential(r: SharedCounterRegistry, n: nat)
    requires
        r.next_id + n <= u64::MAX,
    ensures
        spec_ids_after(r, n) is Some,
        spec_ids_after(r, n)->Some_0.0.next_id == r.next_id + n,
        spec_ids_after(r, n)->Some_0.0.bump == r.bump,
        spec_ids_after(r, n)->Some_0.1.len() == n,
        forall|i: int| 0 <= i < n ==> spec_ids_after(r, n)->Some_0.1[i] == r.next_id + i,
    decreases n,
{
    if n > 0 {
        lemma_ids_sequential(r, (n - 1) as nat);
    }
}

/// Ids are dense from the start: beginning at a freshly initialized
/// registry, the ids of `n` successful creations are exactly 1, 2, …, n,
/// and `next_id` ends at `n + 1`.
pub proof fn lemma_ids_dense(r: SharedCounterRegistry, n: nat)
    requires
        r.next_id == 1,
        n <= u64::MAX - 1,
    ensures
        spec_ids_after(r, n) is Some,
        spec_ids_after(r, n)->Some_0.0.next_id == n + 1,
        spec_ids_after(r, n)->Some_0.1.len() == n,
        forall|i: int| 0 <= i < n ==> spec_ids_after(r, n)->Some_0.1[i] == i + 1,
{
    lemma_ids_sequential(r, n);
}

} // verus!
