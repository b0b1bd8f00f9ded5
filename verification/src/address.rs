//! Deterministic address derivation.
//!
//! A counter's address is a pure function of the program's key, a domain
//! tag, the creator's key and the seed number. The host searches a bounded
//! space of nonce values for one whose derived address is valid for
//! program-owned records; the nonce that succeeded is persisted in the
//! record so the address can be re-derived later without a search. The
//! search can in principle exhaust every nonce, and that outcome is a typed
//! failure, not a panic.

use vstd::prelude::*;

use crate::errors::ErrorCode;
use crate::keys::AccountKey;

verus! {

/// What the host's derivation returns for a program key and ordered seed
/// byte-strings: a valid derived address and its nonce, or nothing when no
/// nonce qualifies. The outcome depends on the arguments alone.
pub uninterp spec fn pda_of(program: Seq<u8>, seeds: Seq<Seq<u8>>) -> Option<(Seq<u8>, u8)>;

/// The views of a list of seed byte-strings.
pub open spec fn seed_views(seeds: Seq<Vec<u8>>) -> Seq<Seq<u8>> {
    seeds.map_values(|s: Vec<u8>| s@)
}

/// A found address and nonce, seen as plain values.
pub open spec fn found_view(r: Option<(AccountKey, u8)>) -> Option<(Seq<u8>, u8)> {
    match r {
        Some(p) => Some((p.0@, p.1)),
        None => None,
    }
}

/// Relies on Pubkey::try_find_program_address: the returned address and
/// nonce are a deterministic function of the seeds and the program key
/// alone, and the search reports failure by returning nothing.
#[verifier::external_body]
fn find_address(program: &AccountKey, seeds: &Vec<Vec<u8>>) -> (r: Option<(AccountKey, u8)>)
    ensures
        found_view(r) == pda_of(program@, seed_views(seeds@)),
{
    let refs: Vec<&[u8]> = seeds.iter().map(|s| s.as_slice()).collect();
    let program_key = anchor_lang::prelude::Pubkey::new_from_array(program.bytes);
    match anchor_lang::prelude::Pubkey::try_find_program_address(refs.as_slice(), &program_key) {
        Some((address, bump)) => Some((AccountKey { bytes: address.to_bytes() }, bump)),
        None => None,
    }
}

/// Derive the address for the given ordered seed byte-strings under
/// `program`, together with the nonce that made the derivation valid.
/// Fails with `DerivationExhausted` exactly when no nonce qualifies.
pub fn derive_address(program: &AccountKey, seeds: &Vec<Vec<u8>>) -> (r: Result<
    (AccountKey, u8),
    ErrorCode,
>)
    ensures
        match pda_of(program@, seed_views(seeds@)) {
            Some(p) => r matches Ok(a) && a.0@ == p.0 && a.1 == p.1,
            None => r == Err::<(AccountKey, u8), ErrorCode>(ErrorCode::DerivationExhausted),
        },
{
    match find_address(program, seeds) {
        Some(found) => Ok(found),
        None => Err(ErrorCode::DerivationExhausted),
    }
}

/// The ordered seed byte-strings that place a counter: the domain tag, the
/// creator's key, and the seed number in little-endian bytes.
pub open spec fn spec_counter_seeds(tag: Seq<u8>, creator: Seq<u8>, seed: u64) -> Seq<Seq<u8>> {
    seq![tag, creator, vstd::bytes::spec_u64_to_le_bytes(seed)]
}

/// Derive the address for the counter of `creator` and `seed` under
/// `program` and `tag`, together with the nonce that made the derivation
/// valid. Fails with `DerivationExhausted` exactly when no nonce qualifies.
pub fn derive_counter_address(
    program: &AccountKey,
    tag: &Vec<u8>,
    creator: &AccountKey,
    seed: u64,
) -> (r: Result<(AccountKey, u8), ErrorCode>)
    ensures
        match pda_of(program@, spec_counter_seeds(tag@, creator@, seed)) {
            Some(p) => r matches Ok(a) && a.0@ == p.0 && a.1 == p.1,
            None => r == Err::<(AccountKey, u8), ErrorCode>(ErrorCode::DerivationExhausted),
        },
{
    let mut seeds: Vec<Vec<u8>> = Vec::new();
    seeds.push(vstd::slice::slice_to_vec(tag.as_slice()));
    seeds.push(creator.to_vec());
    seeds.push(vstd::bytes::u64_to_le_bytes(seed));
    proof {
        assert(seed_views(seeds@) =~= spec_counter_seeds(tag@, creator@, seed));
    }
    derive_address(program, &seeds)
}

/// Derivation is deterministic: two derivations from the same program, tag,
/// creator and seed yield the same outcome — the same address and nonce, or
/// the same failure.
pub proof fn lemma_derive_deterministic(
    program: Seq<u8>,
    tag: Seq<u8>,
    creator: Seq<u8>,
    seed: u64,
    r1: Option<(Seq<u8>, u8)>,
    r2: Option<(Seq<u8>, u8)>,
)
    requires
        r1 == pda_of(program, spec_counter_seeds(tag, creator, seed)),
        r2 == pda_of(program, spec_counter_seeds(tag, creator, seed)),
    ensures
        r1 == r2,
{
}

} // verus!
