use anchor_lang::prelude::Pubkey;
use counter_core::address::derive_counter_address;
use counter_core::errors::ErrorCode;
use counter_core::keys::AccountKey;
use counter_core::service::{create, CounterVariant, CreateRequest};

fn key(fill: u8) -> AccountKey {
    AccountKey::new([fill; 32])
}

fn tag() -> Vec<u8> {
    b"counter".to_vec()
}

#[test]
fn derivation_is_deterministic() {
    let program = key(90);
    let creator = key(1);
    let first = derive_counter_address(&program, &tag(), &creator, 5).expect("derivation");
    let second = derive_counter_address(&program, &tag(), &creator, 5).expect("derivation");
    assert_eq!(first.0, second.0);
    assert_eq!(first.1, second.1);
}

#[test]
fn different_creators_get_different_addresses() {
    let program = key(90);
    let a = derive_counter_address(&program, &tag(), &key(1), 5).expect("derivation");
    let b = derive_counter_address(&program, &tag(), &key(2), 5).expect("derivation");
    assert_ne!(a.0, b.0);
}

#[test]
fn different_seeds_get_different_addresses() {
    let program = key(90);
    let creator = key(1);
    let a = derive_counter_address(&program, &tag(), &creator, 5).expect("derivation");
    let b = derive_counter_address(&program, &tag(), &creator, 6).expect("derivation");
    assert_ne!(a.0, b.0);
}

#[test]
fn derivation_matches_the_host_search() {
    let program_bytes = [90u8; 32];
    let creator_bytes = [1u8; 32];
    let seed: u64 = 5;

    let ours = derive_counter_address(
        &AccountKey::new(program_bytes),
        &tag(),
        &AccountKey::new(creator_bytes),
        seed,
    )
    .expect("derivation");

    let (expected, expected_bump) = Pubkey::find_program_address(
        &[b"counter", &creator_bytes, &seed.to_le_bytes()],
        &Pubkey::new_from_array(program_bytes),
    );

    assert_eq!(ours.0.bytes, expected.to_bytes());
    assert_eq!(ours.1, expected_bump);
}

#[test]
fn derived_address_is_no_echo_of_the_inputs() {
    let program = key(90);
    let creator = key(1);
    let found = derive_counter_address(&program, &tag(), &creator, 5).expect("derivation");
    assert_ne!(found.0, creator);
    assert_ne!(found.0, program);
}

#[test]
fn overlong_tag_exhausts_the_nonce_search() {
    let program = key(90);
    let long_tag: Vec<u8> = vec![7u8; 40];
    assert_eq!(
        derive_counter_address(&program, &long_tag, &key(1), 5).err(),
        Some(ErrorCode::DerivationExhausted)
    );
}

#[test]
fn owned_create_places_the_record_at_the_derived_address() {
    let program = key(90);
    let authority = key(1);
    let mut registry = None;
    let request = CreateRequest::Owned { authority, seed: 7 };
    let (handle, record) =
        create(&program, &tag(), &request, &mut registry).expect("creation");

    let direct = derive_counter_address(&program, &tag(), &authority, 7).expect("derivation");
    assert_eq!(handle.address, direct.0);
    assert_eq!(handle.variant, CounterVariant::Owned);
    assert_eq!(record.value, 0);
    assert!(registry.is_none());
}
