use counter_core::arith::{assign, checked_increment};
use counter_core::auth::authorize;
use counter_core::counter::{AccessPolicy, Addressing, CounterRecord};
use counter_core::errors::ErrorCode;
use counter_core::keys::AccountKey;
use counter_core::layout::{
    OwnedCounter, SharedCounter, SharedDerivedCounter, OWNED_COUNTER_LEN, RECORD_TAG_LEN,
    SHARED_COUNTER_LEN, SHARED_COUNTER_REGISTRY_LEN, SHARED_DERIVED_COUNTER_LEN,
};
use counter_core::registry::SharedCounterRegistry;
use counter_core::service::{
    create, initialize_registry, CounterVariant, CreateRequest,
};

fn key(fill: u8) -> AccountKey {
    AccountKey::new([fill; 32])
}

#[test]
fn created_records_start_at_zero() {
    let a = key(1);
    assert_eq!(CounterRecord::new_owned(a, 7, 255).value, 0);
    assert_eq!(CounterRecord::new_shared_derived(7, 254).value, 0);
    assert_eq!(CounterRecord::new_registered(1).value, 0);
}

#[test]
fn increments_accumulate_exactly() {
    let caller = key(9);
    let mut record = CounterRecord::new_shared_derived(3, 255);
    for expected in 1..=100u64 {
        assert_eq!(record.increment(&caller), Ok(expected));
    }
    assert_eq!(record.value, 100);
}

#[test]
fn increment_at_max_overflows_and_leaves_value() {
    let owner = key(2);
    let mut record = CounterRecord::new_owned(owner, 0, 255);
    assert_eq!(record.set_value(&owner, u64::MAX), Ok(()));
    assert_eq!(record.increment(&owner), Err(ErrorCode::Overflow));
    assert_eq!(record.value, u64::MAX);
}

#[test]
fn set_value_accepts_any_u64() {
    let owner = key(3);
    let mut record = CounterRecord::new_owned(owner, 0, 255);
    assert_eq!(record.set_value(&owner, u64::MAX), Ok(()));
    assert_eq!(record.value, u64::MAX);
    assert_eq!(record.set_value(&owner, 0), Ok(()));
    assert_eq!(record.value, 0);
}

#[test]
fn owned_counter_refuses_other_identities() {
    let owner = key(4);
    let stranger = key(5);
    let mut record = CounterRecord::new_owned(owner, 7, 255);

    assert_eq!(record.increment(&stranger), Err(ErrorCode::NotOwner));
    assert_eq!(record.value, 0);
    assert_eq!(record.set_value(&stranger, 42), Err(ErrorCode::NotOwner));
    assert_eq!(record.value, 0);

    assert_eq!(record.increment(&owner), Ok(1));
    assert_eq!(record.value, 1);
    assert_eq!(record.set_value(&owner, 42), Ok(()));
    assert_eq!(record.value, 42);
}

#[test]
fn shared_counter_accepts_any_caller() {
    let mut record = CounterRecord::new_registered(1);
    assert_eq!(record.increment(&key(10)), Ok(1));
    assert_eq!(record.increment(&key(11)), Ok(2));
    assert_eq!(record.set_value(&key(12), 500), Ok(()));
    assert_eq!(record.value, 500);

    let mut derived = CounterRecord::new_shared_derived(9, 253);
    assert_eq!(derived.increment(&key(13)), Ok(1));
    assert_eq!(derived.set_value(&key(14), 0), Ok(()));
}

#[test]
fn registry_assigns_dense_ids_from_one() {
    let mut registry = SharedCounterRegistry::new(255);
    assert_eq!(registry.next_id, 1);
    for expected in 1..=10u64 {
        assert_eq!(registry.allocate(), Ok(expected));
    }
    assert_eq!(registry.next_id, 11);
}

#[test]
fn registry_allocate_overflows_at_id_space_end() {
    let mut registry = SharedCounterRegistry { next_id: u64::MAX, bump: 255 };
    assert_eq!(registry.allocate(), Err(ErrorCode::Overflow));
    assert_eq!(registry.next_id, u64::MAX);
}

#[test]
fn initialize_registry_is_refused_once_present() {
    let mut registry: Option<SharedCounterRegistry> = None;
    assert_eq!(initialize_registry(255, &mut registry), Ok(()));
    let after = registry.expect("registry created");
    assert_eq!(after.next_id, 1);
    assert_eq!(after.bump, 255);

    let mut registry = Some(after);
    assert_eq!(
        initialize_registry(255, &mut registry),
        Err(ErrorCode::AddressInUse)
    );
    assert_eq!(registry.unwrap().next_id, 1);
}

#[test]
fn registered_create_before_initialize_is_refused() {
    let program = key(20);
    let tag: Vec<u8> = b"counter".to_vec();
    let mut registry: Option<SharedCounterRegistry> = None;
    let request = CreateRequest::SharedRegistered { address: key(21) };
    assert_eq!(
        create(&program, &tag, &request, &mut registry).err(),
        Some(ErrorCode::RegistryUninitialized)
    );
    assert!(registry.is_none());
}

#[test]
fn registered_create_at_id_space_end_overflows() {
    let program = key(20);
    let tag: Vec<u8> = b"counter".to_vec();
    let mut registry = Some(SharedCounterRegistry { next_id: u64::MAX, bump: 255 });
    let request = CreateRequest::SharedRegistered { address: key(21) };
    assert_eq!(
        create(&program, &tag, &request, &mut registry).err(),
        Some(ErrorCode::Overflow)
    );
    assert_eq!(registry.unwrap().next_id, u64::MAX);
}

#[test]
fn registry_scenario_two_creations_one_increment() {
    let program = key(30);
    let tag: Vec<u8> = b"counter".to_vec();
    let mut registry: Option<SharedCounterRegistry> = None;
    assert_eq!(initialize_registry(251, &mut registry), Ok(()));

    let first = CreateRequest::SharedRegistered { address: key(31) };
    let (_, mut first_record) =
        create(&program, &tag, &first, &mut registry).expect("first creation");
    let second = CreateRequest::SharedRegistered { address: key(32) };
    let (_, second_record) =
        create(&program, &tag, &second, &mut registry).expect("second creation");

    assert_eq!(first_record.increment(&key(33)), Ok(1));

    assert_eq!(first_record.addressing, Addressing::Registered { id: 1 });
    assert_eq!(first_record.value, 1);
    assert_eq!(second_record.addressing, Addressing::Registered { id: 2 });
    assert_eq!(second_record.value, 0);
    assert_eq!(registry.unwrap().next_id, 3);
}

#[test]
fn owned_scenario_stranger_then_owner() {
    let owner = key(40);
    let stranger = key(41);
    let mut record = CounterRecord::new_owned(owner, 7, 255);
    assert_eq!(record.increment(&stranger), Err(ErrorCode::NotOwner));
    assert_eq!(record.value, 0);
    assert_eq!(record.increment(&owner), Ok(1));
    assert_eq!(record.value, 1);
}

#[test]
fn checked_increment_is_exact() {
    assert_eq!(checked_increment(0), Ok(1));
    assert_eq!(checked_increment(41), Ok(42));
    assert_eq!(checked_increment(u64::MAX - 1), Ok(u64::MAX));
    assert_eq!(checked_increment(u64::MAX), Err(ErrorCode::Overflow));
}

#[test]
fn assign_is_unchecked_replacement() {
    assert_eq!(assign(0), 0);
    assert_eq!(assign(u64::MAX), u64::MAX);
}

#[test]
fn authorize_compares_whole_keys() {
    let mut almost = [7u8; 32];
    almost[31] = 8;
    assert_eq!(authorize(&key(7), &key(7)), Ok(()));
    assert_eq!(
        authorize(&key(7), &AccountKey::new(almost)),
        Err(ErrorCode::NotOwner)
    );
}

#[test]
fn capability_table_is_fixed_per_variant() {
    assert!(CounterVariant::Owned.requires_authorization());
    assert!(!CounterVariant::SharedDerived.requires_authorization());
    assert!(!CounterVariant::SharedRegistered.requires_authorization());

    assert!(!CounterVariant::Owned.registry_addressed());
    assert!(!CounterVariant::SharedDerived.registry_addressed());
    assert!(CounterVariant::SharedRegistered.registry_addressed());
}

#[test]
fn layout_shapes_round_trip() {
    let owner = key(50);
    let owned = OwnedCounter { owner, value: 5, seed: 7, bump: 254 };
    let back = OwnedCounter::from_record(&owned.to_record()).expect("owned shape");
    assert_eq!(back.owner, owner);
    assert_eq!((back.value, back.seed, back.bump), (5, 7, 254));

    let derived = SharedDerivedCounter { value: 6, seed: 8, bump: 253 };
    let back = SharedDerivedCounter::from_record(&derived.to_record()).expect("derived shape");
    assert_eq!((back.value, back.seed, back.bump), (6, 8, 253));

    let registered = SharedCounter { value: 9, id: 3 };
    let back = SharedCounter::from_record(&registered.to_record()).expect("registered shape");
    assert_eq!((back.value, back.id), (9, 3));

    assert!(OwnedCounter::from_record(&registered.to_record()).is_none());
    assert!(SharedCounter::from_record(&owned.to_record()).is_none());
    assert!(SharedDerivedCounter::from_record(&owned.to_record()).is_none());
}

#[test]
fn record_lengths_are_fixed() {
    assert_eq!(RECORD_TAG_LEN, 8);
    assert_eq!(OWNED_COUNTER_LEN, 57);
    assert_eq!(SHARED_DERIVED_COUNTER_LEN, 25);
    assert_eq!(SHARED_COUNTER_LEN, 24);
    assert_eq!(SHARED_COUNTER_REGISTRY_LEN, 17);
}

#[test]
fn error_messages_name_each_failure() {
    assert_eq!(ErrorCode::NotOwner.message(), "not owner");
    assert_eq!(ErrorCode::Overflow.message(), "overflow");
    assert_eq!(ErrorCode::InvalidId.message(), "invalid id");
    assert_eq!(ErrorCode::DerivationExhausted.message(), "derivation exhausted");
    assert_eq!(ErrorCode::AddressInUse.message(), "address in use");
    assert_eq!(ErrorCode::RegistryUninitialized.message(), "registry uninitialized");
}

#[test]
fn metadata_survives_every_mutation() {
    let owner = key(60);
    let mut record = CounterRecord::new_owned(owner, 11, 252);
    record.increment(&owner).unwrap();
    record.set_value(&owner, 77).unwrap();
    match record.policy {
        AccessPolicy::OwnedBy { authority } => assert_eq!(authority, owner),
        AccessPolicy::Shared => panic!("policy changed"),
    }
    assert_eq!(record.addressing, Addressing::Derived { seed: 11, bump: 252 });
}
