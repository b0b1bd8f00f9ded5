//! Persistent counter records for an account-based ledger.
//!
//! Each record stores a 64-bit value together with metadata that decides who
//! may mutate it: an owned counter answers only to its stored authority, a
//! shared counter answers to any caller. Shared counters come in two
//! addressing schemes, one derived from creator and seed, one assigned a
//! sequential id by a singleton registry.

use vstd::prelude::*;

pub mod address;
pub mod arith;
pub mod auth;
pub mod counter;
pub mod errors;
pub mod keys;
pub mod layout;
pub mod registry;
pub mod service;

verus! {

} // verus!
