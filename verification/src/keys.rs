//! Account keys: the 32-byte values that name accounts and identities.
//!
//! One key type serves two roles, as the ledger itself makes no difference
//! between them: the address of a record in the account space, and the
//! public identity of a caller or authority.

use vstd::prelude::*;

verus! {

/// A 32-byte public key. Its view is the sequence of its bytes.
#[derive(Clone, Copy, Debug)]
pub struct AccountKey {
    pub bytes: [u8; 32],
}

impl View for AccountKey {
    type V = Seq<u8>;

    open spec fn view(&self) -> Seq<u8> {
        self.bytes@
    }
}

impl AccountKey {
    /// Wrap raw bytes as a key.
    pub fn new(bytes: [u8; 32]) -> (r: AccountKey)
        ensures
            r@ == bytes@,
    {
        AccountKey { bytes }
    }

    /// The bytes of the key, as a fresh vector.
    pub fn to_vec(&self) -> (r: Vec<u8>)
        ensures
            r@ == self@,
    {
        let mut out: Vec<u8> = Vec::new();
        let mut i: usize = 0;
        while i < 32
            invariant
                i <= 32,
                out@ == self.bytes@.subrange(0, i as int),
            decreases 32 - i,
        {
            out.push(self.bytes[i]);
            proof {
                assert(out@ =~= self.bytes@.subrange(0, i + 1));
            }
            i += 1;
        }
        proof {
            assert(out@ =~= self.bytes@);
        }
        out
    }
}

impl PartialEq for AccountKey {
    fn eq(&self, other: &AccountKey) -> (r: bool) {
        let mut i: usize = 0;
        while i < 32
            invariant
                i <= 32,
                forall|j: int| 0 <= j < i ==> self.bytes@[j] == other.bytes@[j],
            decreases 32 - i,
        {
            if self.bytes[i] != other.bytes[i] {
                return false;
            }
            i += 1;
        }
        proof {
            assert(self.bytes@ =~= other.bytes@);
        }
        true
    }
}

impl vstd::std_specs::cmp::PartialEqSpecImpl for AccountKey {
    open spec fn obeys_eq_spec() -> bool {
        true
    }

    open spec fn eq_spec(&self, other: &AccountKey) -> bool {
        self.bytes@ == other.bytes@
    }
}

} // verus!
