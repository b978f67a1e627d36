//! A provider of perlin noise.
//!
//! Perlin noise is a sum of octaves of coherent noise. Each octave is
//! sampled at a higher frequency than the one before it, and counts for
//! less. The sum is kept within the unit range.

use vstd::prelude::*;
use crate::fixed::{accumulate, clamp_unit, multiply, product, total, unit_clamped, ONE};
use super::coherent::{coherent_at, CoherentNoise};
use super::NoiseProvider;

pub use self::property::{Frequency, Lacunarity, Octaves, Persistence, Property};

mod property;

verus! {

/// What a perlin noise source is made of.
pub struct PerlinSettings {
    pub octaves: Octaves,
    pub freq: Frequency,
    pub pers: Persistence,
    pub lacu: Lacunarity,
}

/// The perlin noise source.
#[derive(Debug, Copy, Clone)]
pub struct PerlinNoise {
    octaves: Octaves,
    freq: Frequency,
    pers: Persistence,
    lacu: Lacunarity,
}

impl View for PerlinNoise {
    type V = PerlinSettings;

    closed spec fn view(&self) -> PerlinSettings {
        PerlinSettings { octaves: self.octaves, freq: self.freq, pers: self.pers, lacu: self.lacu }
    }
}

/// The settings that a new source starts with.
pub open spec fn default_settings() -> PerlinSettings {
    PerlinSettings {
        octaves: Octaves { value: 8 },
        freq: Frequency { value: ONE },
        pers: Persistence { value: 0x2000_0000 },
        lacu: Lacunarity { value: 0x8000_0000 },
    }
}

/// The sum of the octaves from `octave` on, added to `value`. The octave
/// `octave` is sampled at `(x, y)` and weighted by `pers`.
pub open spec fn octave_sum(
    settings: PerlinSettings,
    x: int,
    y: int,
    pers: int,
    seed: u64,
    octave: nat,
    value: int,
) -> int
    decreases settings.octaves.value - octave,
{
    if octave >= settings.octaves.value {
        value
    } else {
        octave_sum(
            settings,
            product(x, settings.lacu.value as int),
            product(y, settings.lacu.value as int),
            product(pers, settings.pers.value as int),
            seed,
            octave + 1,
            total(value, product(coherent_at(x, y, seed.wrapping_add(octave as u64)), pers)),
        )
    }
}

/// The perlin noise at `(x, y)`.
pub open spec fn perlin_at(settings: PerlinSettings, x: int, y: int, seed: u64) -> int {
    unit_clamped(
        octave_sum(
            settings,
            product(x, settings.freq.value as int),
            product(y, settings.freq.value as int),
            ONE as int,
            seed,
            0,
            0,
        ),
    )
}

impl Default for PerlinNoise {
    fn default() -> (perlin: PerlinNoise)
        ensures
            perlin@ == default_settings(),
    {
        PerlinNoise {
            octaves: Octaves::default(),
            freq: Frequency::default(),
            pers: Persistence::default(),
            lacu: Lacunarity::default(),
        }
    }
}

impl PerlinNoise {
    /// A source with the default options.
    pub fn new() -> (perlin: PerlinNoise)
        ensures
            perlin@ == default_settings(),
    {
        PerlinNoise::default()
    }

    /// Sets an option on the source.
    pub fn set<T: Property>(self, property: T) -> (updated: PerlinNoise)
        ensures
            updated@ == property.applied(self@),
    {
        property.set_to(self)
    }

    /// The source with other octaves.
    fn set_octaves(self, octaves: Octaves) -> (updated: PerlinNoise)
        ensures
            updated@ == (PerlinSettings { octaves: octaves, ..self@ }),
    {
        PerlinNoise { octaves: octaves, ..self }
    }

    /// The source with another frequency.
    fn set_frequency(self, freq: Frequency) -> (updated: PerlinNoise)
        ensures
            updated@ == (PerlinSettings { freq: freq, ..self@ }),
    {
        PerlinNoise { freq: freq, ..self }
    }

    /// The source with another persistence.
    fn set_persistence(self, pers: Persistence) -> (updated: PerlinNoise)
        ensures
            updated@ == (PerlinSettings { pers: pers, ..self@ }),
    {
        PerlinNoise { pers: pers, ..self }
    }

    /// The source with another lacunarity.
    fn set_lacunarity(self, lacu: Lacunarity) -> (updated: PerlinNoise)
        ensures
            updated@ == (PerlinSettings { lacu: lacu, ..self@ }),
    {
        PerlinNoise { lacu: lacu, ..self }
    }
}

impl NoiseProvider for PerlinNoise {
    open spec fn noise_at(&self, x: int, y: int, seed: u64) -> int {
        perlin_at(self@, x, y, seed)
    }

    fn generate(&self, x: i64, y: i64, seed: u64) -> (value: i64) {
        let mut x: i64 = multiply(x, self.freq.value);
        let mut y: i64 = multiply(y, self.freq.value);
        let mut pers: i64 = ONE;
        let mut value: i64 = 0;
        let mut octave: u32 = 0;
        let ghost whole: int = octave_sum(self@, x as int, y as int, ONE as int, seed, 0, 0);

        while octave < self.octaves.value
            invariant
                octave <= self.octaves.value,
                self@.octaves == self.octaves,
                self@.pers == self.pers,
                self@.lacu == self.lacu,
                octave_sum(
                    self@,
                    x as int,
                    y as int,
                    pers as int,
                    seed,
                    octave as nat,
                    value as int,
                ) == whole,
            decreases self.octaves.value - octave,
        {
            let sample: i64 = CoherentNoise.generate(x, y, seed.wrapping_add(octave as u64));
            value = accumulate(value, multiply(sample, pers));

            x = multiply(x, self.lacu.value);
            y = multiply(y, self.lacu.value);
            pers = multiply(pers, self.pers.value);
            octave = octave + 1;
        }

        clamp_unit(value)
    }
}

} // verus!
