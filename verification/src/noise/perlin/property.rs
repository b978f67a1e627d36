//! The options of a perlin noise source.

use vstd::prelude::*;
use crate::fixed::ONE;
use super::{PerlinNoise, PerlinSettings};

verus! {

/// A property is an option that can be set on a perlin noise source.
pub trait Property: Default + Copy {
    /// The settings of a source after this option is set on it.
    spec fn applied(self, settings: PerlinSettings) -> PerlinSettings;

    /// Sets this option on `perlin`.
    fn set_to(self, perlin: PerlinNoise) -> (updated: PerlinNoise)
        ensures
            updated@ == self.applied(perlin@),
    ;
}

/// Octaves are the number of layers of coherent noise used in the
/// generation of perlin noise.
///
/// The default value for this is 8.
#[derive(Copy, Clone, Debug)]
pub struct Octaves {
    pub value: u32,
}

impl Octaves {
    /// That many octaves.
    pub fn of(value: u32) -> (octaves: Octaves)
        ensures
            octaves.value == value,
    {
        Octaves { value: value }
    }
}

impl Default for Octaves {
    fn default() -> (octaves: Octaves)
        ensures
            octaves.value == 8,
    {
        Octaves { value: 8 }
    }
}

impl Property for Octaves {
    open spec fn applied(self, settings: PerlinSettings) -> PerlinSettings {
        PerlinSettings { octaves: self, ..settings }
    }

    fn set_to(self, perlin: PerlinNoise) -> (updated: PerlinNoise) {
        perlin.set_octaves(self)
    }
}

/// Frequency controls the 'width' of the noise. If you imagine noise as
/// hills and valleys, then frequency controls the distance between them.
///
/// The value is a fixed-point number. The default value for this is 1.
#[derive(Copy, Clone, Debug)]
pub struct Frequency {
    pub value: i64,
}

impl Frequency {
    /// The frequency `value`, a fixed-point number.
    pub fn of(value: i64) -> (frequency: Frequency)
        ensures
            frequency.value == value,
    {
        Frequency { value: value }
    }
}

impl Default for Frequency {
    fn default() -> (frequency: Frequency)
        ensures
            frequency.value == ONE,
    {
        Frequency { value: ONE }
    }
}

impl Property for Frequency {
    open spec fn applied(self, settings: PerlinSettings) -> PerlinSettings {
        PerlinSettings { freq: self, ..settings }
    }

    fn set_to(self, perlin: PerlinNoise) -> (updated: PerlinNoise) {
        perlin.set_frequency(self)
    }
}

/// Persistence controls how much each octave contributes to the final
/// noise value.
///
/// The value is a fixed-point number. The default value for this is 0.5.
#[derive(Copy, Clone, Debug)]
pub struct Persistence {
    pub value: i64,
}

impl Persistence {
    /// The persistence `value`, a fixed-point number.
    pub fn of(value: i64) -> (persistence: Persistence)
        ensures
            persistence.value == value,
    {
        Persistence { value: value }
    }
}

impl Default for Persistence {
    fn default() -> (persistence: Persistence)
        ensures
            persistence.value == ONE / 2,
    {
        Persistence { value: ONE / 2 }
    }
}

impl Property for Persistence {
    open spec fn applied(self, settings: PerlinSettings) -> PerlinSettings {
        PerlinSettings { pers: self, ..settings }
    }

    fn set_to(self, perlin: PerlinNoise) -> (updated: PerlinNoise) {
        perlin.set_persistence(self)
    }
}

/// Lacunarity controls the frequency of each octave in the final noise
/// value.
///
/// The value is a fixed-point number. The default value for this is 2.
#[derive(Copy, Clone, Debug)]
pub struct Lacunarity {
    pub value: i64,
}

impl Lacunarity {
    /// The lacunarity `value`, a fixed-point number.
    pub fn of(value: i64) -> (lacunarity: Lacunarity)
        ensures
            lacunarity.value == value,
    {
        Lacunarity { value: value }
    }
}

impl Default for Lacunarity {
    fn default() -> (lacunarity: Lacunarity)
        ensures
            lacunarity.value == 2 * ONE,
    {
        Lacunarity { value: 2 * ONE }
    }
}

impl Property for Lacunarity {
    open spec fn applied(self, settings: PerlinSettings) -> PerlinSettings {
        PerlinSettings { lacu: self, ..settings }
    }

    fn set_to(self, perlin: PerlinNoise) -> (updated: PerlinNoise) {
        perlin.set_lacunarity(self)
    }
}

} // verus!
