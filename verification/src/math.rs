//! Ordering utilities and the derivation of per-pixel random streams.

use vstd::prelude::*;
use vstd::std_specs::cmp::OrdSpec;
use core::cmp::Ordering;

verus! {

/// What `v.max(min).min(max)` evaluates to when `cmp` obeys its
/// specification: `v` pushed up to at least `min`, then down to at most
/// `max` — so when `min` exceeds `max`, `max` wins.
pub open spec fn clamped<T: Ord + OrdSpec>(v: T, min: T, max: T) -> T {
    let raised = match min.cmp_spec(&v) {
        Ordering::Less => v,
        _ => min,
    };
    match max.cmp_spec(&raised) {
        Ordering::Less => max,
        _ => raised,
    }
}

/// Restricts `v` to the interval from `min` to `max`.
pub fn clamp<T: Ord + OrdSpec>(v: T, min: T, max: T) -> (r: T)
    ensures
        T::obeys_cmp_spec() ==> r == clamped(v, min, max),
{
    v.max(min).min(max)
}

/// The seed of the independent random stream that samples one pixel: the
/// render's global seed plus the pixel's buffer index, wrapped to 64 bits.
/// Giving every pixel its own stream keeps the render reproducible for a
/// fixed global seed, however the pixels are spread over workers.
pub open spec fn stream_seed_of(seed: u64, pixel_index: u64) -> u64 {
    (((seed + pixel_index) % 0x1_0000_0000_0000_0000) as u64)
}

/// Derives the seed of the random stream owned by pixel `pixel_index`.
pub fn stream_seed(seed: u64, pixel_index: u64) -> (r: u64)
    ensures
        r == stream_seed_of(seed, pixel_index),
{
    let wide: u128 = (seed as u128) + (pixel_index as u128);
    (wide % 0x1_0000_0000_0000_0000) as u64
}

/// Distinct pixels never share a random stream: for one global seed, the
/// map from pixel index to stream seed is injective.
pub proof fn lemma_stream_seeds_distinct(seed: u64, i: u64, j: u64)
    requires
        i != j,
    ensures
        stream_seed_of(seed, i) != stream_seed_of(seed, j),
{
    assert((seed + i) % 0x1_0000_0000_0000_0000 != (seed + j) % 0x1_0000_0000_0000_0000)
        by (bit_vector)
        requires
            i != j,
    ;
}

} // verus!
