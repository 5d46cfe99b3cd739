//! Random choices and sorting, made by `rand` and by the standard library.

use vstd::prelude::*;
use rand::Rng;
use rand::seq::SliceRandom;

verus! {

/// `rand::thread_rng().gen_range(lo..=hi)` on `i16`: some value of the closed
/// range (rand panics on an empty range, so `lo <= hi` is required). Which
/// value comes out is left open.
#[verifier::external_body]
pub(crate) fn random_i16_in(lo: i16, hi: i16) -> (r: i16)
    requires
        lo <= hi,
    ensures
        lo <= r <= hi,
{
    rand::thread_rng().gen_range(lo..=hi)
}

/// `rand::thread_rng().gen_range(lo..=hi)` on `i32`: some value of the closed
/// range (rand panics on an empty range, so `lo <= hi` is required). Which
/// value comes out is left open.
#[verifier::external_body]
pub(crate) fn random_i32_in(lo: i32, hi: i32) -> (r: i32)
    requires
        lo <= hi,
    ensures
        lo <= r <= hi,
{
    rand::thread_rng().gen_range(lo..=hi)
}

/// `rand::thread_rng().gen::<bool>()`: a coin toss; either outcome may come.
#[verifier::external_body]
pub(crate) fn random_bool() -> (b: bool)
{
    rand::thread_rng().gen::<bool>()
}

/// `SliceRandom::shuffle` on the first `len` elements: they come back in some
/// order (a permutation of what was there); the rest is untouched. Which
/// permutation is left open.
#[verifier::external_body]
pub(crate) fn shuffle_prefix(v: &mut Vec<i16>, len: usize)
    requires
        len <= old(v)@.len(),
    ensures
        final(v)@.len() == old(v)@.len(),
        final(v)@.subrange(0, len as int).to_multiset() == old(v)@.subrange(0, len as int).to_multiset(),
        final(v)@.subrange(len as int, final(v)@.len() as int) == old(v)@.subrange(len as int, old(v)@.len() as int),
{
    v[..len].shuffle(&mut rand::thread_rng());
}

/// `<[i16]>::sort` on the first `len` elements: they come back in ascending
/// order, the same values as before; the rest is untouched.
#[verifier::external_body]
pub(crate) fn sort_prefix(v: &mut Vec<i16>, len: usize)
    requires
        len <= old(v)@.len(),
    ensures
        final(v)@.len() == old(v)@.len(),
        final(v)@.subrange(0, len as int).to_multiset() == old(v)@.subrange(0, len as int).to_multiset(),
        forall|i: int, j: int| 0 <= i <= j < len ==> final(v)@[i] <= final(v)@[j],
        final(v)@.subrange(len as int, final(v)@.len() as int) == old(v)@.subrange(len as int, old(v)@.len() as int),
{
    v[..len].sort();
}

} // verus!
