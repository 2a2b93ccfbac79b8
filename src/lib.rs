//! Procedural generation of stars, planetary systems, galactic regions and
//! small bodies. This crate holds the discrete, table-driven core of the
//! generator; every decision it makes is verified.
//!
//! Quantities are exact integers in named units (millionths of a solar mass,
//! millionths of an AU, parts per billion, ...). Randomness comes from the
//! stream of words of a generator seeded with a 64-bit seed: each trait is a
//! function of one word, so everything generated from a seed is a function
//! of that seed, and a small body's traits are a function of its system's
//! seed and its position alone.

use vstd::prelude::*;

pub mod composition;
pub mod galaxy;
pub mod ordering;
pub mod planet;
pub mod random;
pub mod small_bodies;
pub mod stellar;
pub mod system;

verus! {

/// Objects that can be procedurally generated, either from fresh entropy or
/// reproducibly from a seed.
pub trait Generate: Sized {
    /// Generates a new instance from fresh entropy.
    fn generate() -> Self;

    /// Generates the instance that belongs to `seed`.
    fn generate_with_seed(seed: u64) -> Self;
}

} // verus!
