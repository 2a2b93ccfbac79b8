//! The pseudorandom stream, provided by the `rand` crate, and the mapping of
//! its words to rolls and to values of a range.

use rand::distributions::Standard;
use rand::rngs::StdRng;
use rand::Rng;
use rand::SeedableRng;
use vstd::prelude::*;

verus! {

/// Word `index` of the stream of 64-bit words of rand's `StdRng` seeded with
/// `seed`; the stream depends on the seed alone.
pub uninterp spec fn seeded_word(seed: u64, index: nat) -> u64;

/// The first `n` words of the stream seeded with `seed`.
pub open spec fn stream_prefix(seed: u64, n: nat) -> Seq<u64> {
    Seq::new(n, |k: int| seeded_word(seed, k as nat))
}

/// Relies on rand's `SeedableRng::seed_from_u64` for `StdRng` and on
/// `Rng::sample_iter` over `Standard` for `u64`, which yields successive
/// `next_u64` words: the first `n` words of the stream seeded with `seed`.
#[verifier::external_body]
pub(crate) fn seeded_words(seed: u64, n: usize) -> (r: Vec<u64>)
    ensures
        r@.len() == n,
        forall|k: int| 0 <= k < n ==> r@[k] == seeded_word(seed, k as nat),
{
    StdRng::seed_from_u64(seed).sample_iter(Standard).take(n).collect()
}

/// Relies on rand's `random::<u64>`: a value drawn from the thread-local
/// generator, which is seeded from the operating system.
#[verifier::external_body]
pub(crate) fn entropy_seed() -> u64 {
    rand::random::<u64>()
}

/// Rolls that pick among weighted outcomes are drawn uniformly from
/// `0..ROLL_SPAN`, that is 2^53: an outcome of probability `p` takes the
/// rolls below `ceil(p * ROLL_SPAN)`.
pub const ROLL_SPAN: u64 = 9_007_199_254_740_992;

/// The roll a word gives: its top 53 bits, the bits rand reads for a uniform
/// float of the unit interval, so that `roll < ceil(p * ROLL_SPAN)` exactly
/// when that float is below `p`.
pub open spec fn spec_roll_of(word: u64) -> u64 {
    word >> 11u64
}

/// Every roll lies in `0..ROLL_SPAN`.
pub proof fn lemma_roll_below_span(word: u64)
    ensures
        spec_roll_of(word) < ROLL_SPAN,
{
    assert(word >> 11u64 < 9_007_199_254_740_992u64) by (bit_vector);
}

/// The roll a word gives.
pub fn roll_of(word: u64) -> (r: u64)
    ensures
        r == spec_roll_of(word),
        r < ROLL_SPAN,
{
    assert(word >> 11u64 < 9_007_199_254_740_992u64) by (bit_vector);
    word >> 11
}

/// `lo <= x < hi`, or `x == lo` where the range is a single point.
pub open spec fn within(x: u64, range: (u64, u64)) -> bool {
    if range.0 == range.1 {
        x == range.0
    } else {
        range.0 <= x < range.1
    }
}

/// The value of `lo..hi` that a word gives: the range scaled by the word's
/// roll as a fraction of `ROLL_SPAN`, rounded down; the single point where
/// the range is one.
pub open spec fn spec_scaled(word: u64, range: (u64, u64)) -> u64 {
    (range.0 + spec_roll_of(word) * (range.1 - range.0) / ROLL_SPAN as int) as u64
}

/// The value a word gives lies in the range.
pub proof fn lemma_scaled_within(word: u64, range: (u64, u64))
    requires
        range.0 <= range.1,
    ensures
        within(spec_scaled(word, range), range),
{
    let roll = spec_roll_of(word) as int;
    let width = range.1 - range.0;
    lemma_roll_below_span(word);
    assert(0 <= roll * width / (ROLL_SPAN as int) <= width && (width > 0 ==> roll * width / (ROLL_SPAN as int)
        < width)) by (nonlinear_arith)
        requires
            0 <= roll < ROLL_SPAN,
            0 <= width,
    ;
}

/// The value of the range `lo..hi` that a word gives.
pub fn scaled(word: u64, range: (u64, u64)) -> (r: u64)
    requires
        range.0 <= range.1,
    ensures
        r == spec_scaled(word, range),
        within(r, range),
{
    let roll = roll_of(word) as u128;
    let width = (range.1 - range.0) as u128;
    assert(roll * width <= 9_007_199_254_740_992u128 * 0xffff_ffff_ffff_ffffu128) by (nonlinear_arith)
        requires
            roll < 9_007_199_254_740_992u128,
            width <= 0xffff_ffff_ffff_ffffu128,
    ;
    let offset = roll * width / ROLL_SPAN as u128;
    assert(offset <= width && (width > 0 ==> offset < width)) by (nonlinear_arith)
        requires
            offset == roll * width / (ROLL_SPAN as int),
            roll < ROLL_SPAN,
    ;
    range.0 + offset as u64
}

} // verus!
