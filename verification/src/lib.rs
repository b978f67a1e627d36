//! World and noise generation on exact fixed-point arithmetic.
//!
//! A point noise source maps a coordinate pair and a seed to a value between
//! -1 and 1. A `NoiseMap` samples such a source on an infinite grid that is
//! cut into chunks; noise maps can be scaled by an integer and added
//! together, the sum being normalised back into the unit range. A `World`
//! turns a chunk into tiles by ordered threshold rules over noise maps.
//!
//! Every value is a fixed-point number with 30 fractional bits (see
//! [`fixed`]), so that a chunk is the same bit for bit on every machine.
//!
//! - [`fixed`] holds the arithmetic: saturating products and sums, and
//!   division that rounds towards zero.
//! - [`noise`] holds the sources of point noise: coherent noise on a
//!   lattice, and perlin noise, a sum of octaves of it.
//! - [`noisemap`] holds the noise maps, the identities they carry, and what
//!   scaling and adding them does to their values.
//! - [`world`] holds tiles, their constraints, and the generation of chunks
//!   of tiles.

pub mod fixed;
pub mod noise;
pub mod noisemap;
pub mod world;
