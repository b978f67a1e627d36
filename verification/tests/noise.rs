use worldgen::fixed::ONE;
use worldgen::noise::coherent::CoherentNoise;
use worldgen::noise::perlin::{Frequency, Lacunarity, Octaves, PerlinNoise, Persistence};
use worldgen::noise::NoiseProvider;

#[test]
fn coherent_noise_at_lattice_corners() {
    // at a corner the noise is the corner's own value: 1 - r / 2^30
    assert_eq!(CoherentNoise.generate(0, 0, 0), ONE - 1_376_312_579);
    assert_eq!(CoherentNoise.generate(0, 0, 0), -302_570_755);
    assert_eq!(CoherentNoise.generate(ONE, ONE, 15), -489_709_075);
    assert_eq!(CoherentNoise.generate(ONE, 2 * ONE, 3), 576_728_723);
    assert_eq!(CoherentNoise.generate(-5 * ONE, 7 * ONE, 15), 239_363_325);
}

#[test]
fn coherent_noise_between_corners() {
    assert_eq!(CoherentNoise.generate(3 * ONE / 2, 5 * ONE / 2, 15), 225_354_934);
    assert_eq!(CoherentNoise.generate(-ONE / 2, ONE / 4, 7), -64_084_985);
}

#[test]
fn coherent_noise_is_reproducible() {
    let first = CoherentNoise.generate(123_456_789, -987_654_321, 42);
    let second = CoherentNoise.generate(123_456_789, -987_654_321, 42);
    assert_eq!(first, second);
    assert_eq!(CoherentNoise::default().generate(ONE, ONE, 15), -489_709_075);
}

#[test]
fn coherent_noise_uses_the_low_bits_of_the_seed() {
    let low = CoherentNoise.generate(3 * ONE / 2, 5 * ONE / 2, 15);
    let high = CoherentNoise.generate(3 * ONE / 2, 5 * ONE / 2, 15 + (1 << 32));
    assert_eq!(low, high);
    assert_ne!(low, CoherentNoise.generate(3 * ONE / 2, 5 * ONE / 2, 16));
}

#[test]
fn coherent_noise_stays_in_the_unit_range() {
    let mut x = -3 * ONE;
    while x <= 3 * ONE {
        let mut y = -3 * ONE;
        while y <= 3 * ONE {
            let value = CoherentNoise.generate(x, y, 99);
            assert!(-ONE <= value && value <= ONE);
            y += ONE / 7;
        }
        x += ONE / 7;
    }
}

#[test]
fn coherent_noise_far_from_the_origin() {
    for &x in &[i64::MAX, i64::MIN, i64::MAX - 1, i64::MIN + 1, (1 << 61), -(1 << 61)] {
        for &y in &[i64::MAX, i64::MIN, 0, ONE] {
            let value = CoherentNoise.generate(x, y, u64::MAX);
            assert!(-ONE <= value && value <= ONE);
        }
    }
}

#[test]
fn perlin_defaults() {
    assert_eq!(Octaves::default().value, 8);
    assert_eq!(Frequency::default().value, ONE);
    assert_eq!(Persistence::default().value, ONE / 2);
    assert_eq!(Lacunarity::default().value, 2 * ONE);
    assert_eq!(Octaves::of(5).value, 5);
    assert_eq!(Frequency::of(3).value, 3);
    assert_eq!(Persistence::of(4).value, 4);
    assert_eq!(Lacunarity::of(6).value, 6);
}

#[test]
fn perlin_noise_values() {
    let noise = PerlinNoise::new();
    assert_eq!(noise.generate(ONE, ONE, 15), -429_040_287);
    assert_eq!(noise.generate(3 * ONE / 2, 5 * ONE / 2, 15), 230_734_497);
    assert_eq!(PerlinNoise::default().generate(ONE, ONE, 15), -429_040_287);
}

#[test]
fn perlin_noise_with_fewer_octaves() {
    let two = PerlinNoise::new().set(Octaves::of(2));
    assert_eq!(two.generate(3 * ONE / 2, 5 * ONE / 2, 15), 349_541_746);

    let one = PerlinNoise::new().set(Octaves::of(1));
    assert_eq!(one.generate(3 * ONE / 2, 5 * ONE / 2, 15), 225_354_934);
    assert_eq!(
        one.generate(3 * ONE / 2, 5 * ONE / 2, 15),
        CoherentNoise.generate(3 * ONE / 2, 5 * ONE / 2, 15)
    );

    let none = PerlinNoise::new().set(Octaves::of(0));
    assert_eq!(none.generate(3 * ONE / 2, 5 * ONE / 2, 15), 0);
}

#[test]
fn perlin_frequency_scales_the_coordinates() {
    let doubled = PerlinNoise::new().set(Octaves::of(1)).set(Frequency::of(2 * ONE));
    assert_eq!(
        doubled.generate(3 * ONE / 4, 5 * ONE / 4, 15),
        CoherentNoise.generate(3 * ONE / 2, 5 * ONE / 2, 15)
    );
}

#[test]
fn perlin_octaves_use_the_following_seeds() {
    // persistence 1 and lacunarity 1: two octaves sum the noise of two seeds
    let noise = PerlinNoise::new()
        .set(Octaves::of(2))
        .set(Persistence::of(ONE))
        .set(Lacunarity::of(ONE));
    let x = 3 * ONE / 2;
    let y = 5 * ONE / 2;
    let sum = CoherentNoise.generate(x, y, 15) + CoherentNoise.generate(x, y, 16);
    let expected = if sum > ONE { ONE } else if sum < -ONE { -ONE } else { sum };
    assert_eq!(noise.generate(x, y, 15), expected);
}

#[test]
fn perlin_noise_stays_in_the_unit_range() {
    let loud = PerlinNoise::new().set(Persistence::of(4 * ONE)).set(Octaves::of(12));
    let mut x = -2 * ONE;
    while x <= 2 * ONE {
        let value = loud.generate(x, x / 3, 7);
        assert!(-ONE <= value && value <= ONE);
        let plain = PerlinNoise::new().generate(x, x / 3, 7);
        assert!(-ONE <= plain && plain <= ONE);
        x += ONE / 5;
    }
    let far = loud.generate(i64::MAX, i64::MIN, u64::MAX);
    assert!(-ONE <= far && far <= ONE);
}

fn float_of(value: i64) -> f64 {
    value as f64 / ONE as f64
}

fn float_lattice_value(x: i32, y: i32, seed: i32) -> f64 {
    let n = x
        .wrapping_mul(157)
        .wrapping_add(y.wrapping_mul(31337))
        .wrapping_add(seed.wrapping_mul(2633))
        & 0x7fffffff;
    let m = (n << 13) ^ n;
    let r = m
        .wrapping_mul(m.wrapping_mul(m).wrapping_mul(15731).wrapping_add(789221))
        .wrapping_add(1376312579)
        & 0x7fffffff;
    1.0 - (r as f64 / 1073741824.0)
}

fn float_s_curve(a: f64) -> f64 {
    a * a * (3.0 - 2.0 * a)
}

fn float_interpolate(v1: f64, v2: f64, a: f64) -> f64 {
    ((1.0 - a) * v1) + (a * v2)
}

fn float_coherent(x: f64, y: f64, seed: u64) -> f64 {
    let x0 = if x > 0.0 { x as i32 } else { (x - 1.0) as i32 };
    let x1 = x0 + 1;
    let y0 = if y > 0.0 { y as i32 } else { (y - 1.0) as i32 };
    let y1 = y0 + 1;
    let xd = float_s_curve(x - x0 as f64);
    let yd = float_s_curve(y - y0 as f64);
    let x0y0 = float_lattice_value(x0, y0, seed as i32);
    let x1y0 = float_lattice_value(x1, y0, seed as i32);
    let x0y1 = float_lattice_value(x0, y1, seed as i32);
    let x1y1 = float_lattice_value(x1, y1, seed as i32);
    let v1 = float_interpolate(x0y0, x1y0, xd);
    let v2 = float_interpolate(x0y1, x1y1, xd);
    float_interpolate(v1, v2, yd)
}

fn float_perlin(x: f64, y: f64, seed: u64, octaves: u32) -> f64 {
    let mut x = x;
    let mut y = y;
    let mut pers = 1.0f64;
    let mut value = 0.0;
    for octave in 0..octaves {
        value += float_coherent(x, y, seed + octave as u64) * pers;
        x *= 2.0;
        y *= 2.0;
        pers *= 0.5;
    }
    value
}

#[test]
fn coherent_noise_follows_the_formula_on_floats() {
    let mut x = -5 * ONE - 12_345;
    while x <= 5 * ONE {
        let mut y = -4 * ONE + 777;
        while y <= 4 * ONE {
            for &seed in &[0u64, 15, 4_000_000_000] {
                let fixed = float_of(CoherentNoise.generate(x, y, seed));
                let float = float_coherent(float_of(x), float_of(y), seed);
                assert!((fixed - float).abs() < 1e-6);
            }
            y += ONE / 3 + 1;
        }
        x += ONE / 3 + 1;
    }
}

#[test]
fn perlin_noise_follows_the_formula_on_floats() {
    let noise = PerlinNoise::new();
    let mut compared = 0;
    let mut x = -2 * ONE - 999;
    while x <= 2 * ONE {
        let mut y = -2 * ONE + 31;
        while y <= 2 * ONE {
            let float = float_perlin(float_of(x), float_of(y), 15, 8);
            if float.abs() < 0.999 {
                let fixed = float_of(noise.generate(x, y, 15));
                assert!((fixed - float).abs() < 1e-6);
                compared += 1;
            }
            y += ONE / 5 + 1;
        }
        x += ONE / 5 + 1;
    }
    assert!(compared > 300);
}
