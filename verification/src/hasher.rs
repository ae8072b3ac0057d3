//! The hasher abstraction: from a borrowed value to its 64-bit digest.
//!
//! The hashing strategy is any `BuildHasher`. What such a strategy returns is
//! its own business: it may be seeded per process, and nothing here assumes
//! that it is a function of the value. The contracts therefore speak of the
//! digests that a hasher *gives* for a value, as a relation, and state
//! separately what it means for a hasher to be consistent on a value.

use std::hash::BuildHasher;
use std::hash::Hash;
use std::hash::RandomState;
use vstd::prelude::*;

verus! {

/// Trusted: `RandomState::default()`, the randomly seeded default strategy.
/// Nothing is said of the state it returns.
pub assume_specification[ <RandomState as Default>::default ]() -> (hasher: RandomState);

/// Whether `hasher` is a state that the strategy's `Default` gives.
pub open spec fn is_default_state<H: Default>(hasher: H) -> bool {
    call_ensures(<H as Default>::default, (), hasher)
}

/// Trusted: `BuildHasher::hash_one(value)`. Nothing is promised of the result:
/// it is whatever the strategy and the value's `Hash` impl make of the value,
/// and the call panics where one of those two does.
#[verifier::external_body]
fn hash_one<T: Hash + ?Sized, H: BuildHasher>(hasher: &H, value: &T) -> (digest: u64) {
    hasher.hash_one(value)
}

/// Whether `digest` is a digest that `hasher` gives for `value`.
pub closed spec fn hashes_to<T: Hash + ?Sized, H: BuildHasher>(
    hasher: H,
    value: &T,
    digest: u64,
) -> bool {
    call_ensures(hash_one::<T, H>, (&hasher, value), digest)
}

/// Whether `hasher` gives `value` one digest only: hashed again, the value
/// gets the same digest.
pub open spec fn hashes_consistently<T: Hash + ?Sized, H: BuildHasher>(
    hasher: H,
    value: &T,
) -> bool {
    forall|first: u64, second: u64|
        hashes_to(hasher, value, first) && hashes_to(hasher, value, second) ==> first == second
}

/// Hashes `value` with `hasher`.
pub fn hash_value<T: Hash + ?Sized, H: BuildHasher>(hasher: &H, value: &T) -> (digest: u64)
    ensures
        hashes_to(*hasher, value, digest),
{
    hash_one(hasher, value)
}

} // verus!
