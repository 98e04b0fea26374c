//! The sources of chance: identifiers and uniform draws.
//!
//! Every function here is trusted: its body calls into `uuid` or `rand` and
//! its contract is taken on faith. The contracts say only what holds of every
//! outcome. The calls fail only where the operating system has no randomness
//! to give.

use vstd::prelude::*;

verus! {

/// The bits that mark a 128-bit value as a version-4 (random) identifier in
/// the RFC 4122 layout: the version nibble reads 4 and the variant bits read `10`.
pub open spec fn is_random_uuid(value: u128) -> bool {
    value & 0xF000_C000_0000_0000_0000u128 == 0x4000_8000_0000_0000_0000u128
}

/// Mints an identifier with `uuid::Uuid::new_v4` and unpacks it with
/// `Uuid::as_u128`.
///
/// Trusted: the value carries the version and variant marks of a random
/// identifier. Nothing is claimed about the remaining 122 bits, which come
/// from the operating system's generator.
#[verifier::external_body]
pub(crate) fn fresh_uuid() -> (value: u128)
    ensures
        is_random_uuid(value),
{
    uuid::Uuid::new_v4().as_u128()
}

/// Draws a number with `rand::Rng::gen_range` over `low..=high`, on the
/// generator that `rand::thread_rng` hands out.
///
/// Trusted: the draw lies within the bounds, both included. `gen_range`
/// panics on an empty range, which `low <= high` rules out.
#[verifier::external_body]
pub(crate) fn random_between(low: u64, high: u64) -> (drawn: u64)
    requires
        low <= high,
    ensures
        low <= drawn <= high,
{
    rand::Rng::gen_range(&mut rand::thread_rng(), low..=high)
}

/// Picks one element with `rand::seq::SliceRandom::choose`, on the generator
/// that `rand::thread_rng` hands out.
///
/// Trusted: nothing is picked exactly when `items` is empty, and what is
/// picked is one of the elements.
#[verifier::external_body]
pub(crate) fn choose_one<T: Copy>(items: &Vec<T>) -> (picked: Option<T>)
    ensures
        picked is None <==> items@.len() == 0,
        picked matches Some(item) ==> items@.contains(item),
{
    rand::seq::SliceRandom::choose(items.as_slice(), &mut rand::thread_rng()).copied()
}

} // verus!
