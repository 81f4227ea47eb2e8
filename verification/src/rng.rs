//! The crate's only randomness source: thin trusted wrappers around the
//! `rand` crate. Each wrapper states no more than holds of every outcome, so
//! everything proved downstream holds for any draw.

use rand::seq::SliceRandom;
use rand::Rng;
use vstd::prelude::*;

verus! {

/// `rand::rngs::ThreadRng`, the thread-local generator, declared so that
/// verified code can hold one and thread it through a round's generation;
/// its internals stay opaque.
#[verifier::external_type_specification]
#[verifier::external_body]
pub struct ExThreadRng(rand::rngs::ThreadRng);

/// Relies on `rand::thread_rng`: hands out the thread-local generator. It
/// aborts only if the operating system's entropy source cannot be set up,
/// which no input controls.
#[verifier::external_body]
pub(crate) fn fresh_rng() -> rand::rngs::ThreadRng {
    rand::thread_rng()
}

/// Relies on `rand::Rng::gen_range` over a half-open `i32` range: the result
/// lies in `[lo, hi)`. It panics on an empty range, which the precondition
/// rules out.
#[verifier::external_body]
pub(crate) fn rng_range(rng: &mut rand::rngs::ThreadRng, lo: i32, hi: i32) -> (r: i32)
    requires
        lo < hi,
    ensures
        lo <= r < hi,
{
    rng.gen_range(lo..hi)
}

/// Relies on `rand::seq::SliceRandom::choose`: on a non-empty slice it
/// returns `Some` of one of the elements. The precondition rules out the
/// empty slice, on which it returns `None`.
#[verifier::external_body]
pub(crate) fn choose_from(rng: &mut rand::rngs::ThreadRng, options: &[i32]) -> (r: i32)
    requires
        options@.len() > 0,
    ensures
        options@.contains(r),
{
    *options.choose(rng).unwrap()
}

} // verus!
