//! Sources of point noise.
//!
//! A source gives one value for a coordinate pair and a seed. It keeps no
//! state: the same arguments always give the same value, and every value lies
//! in the unit range. `coherent` is the plain lattice source; `perlin` sums
//! octaves of it.

use vstd::prelude::*;
use crate::fixed::ONE;

pub mod coherent;
pub mod perlin;

verus! {

/// A source of point noise.
pub trait NoiseProvider: Default + Clone + Copy {
    /// The value of the noise at the fixed-point coordinates `(x, y)`. A
    /// source that does not say what it is leaves it open.
    open spec fn noise_at(&self, x: int, y: int, seed: u64) -> int {
        arbitrary()
    }

    /// Generates the value of the noise at the fixed-point coordinates
    /// `(x, y)`, using the given seed.
    fn generate(&self, x: i64, y: i64, seed: u64) -> (value: i64)
        ensures
            value == self.noise_at(x as int, y as int, seed),
            -ONE <= value <= ONE,
    ;
}

} // verus!
