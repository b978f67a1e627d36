//! The options of a noise map.

use vstd::prelude::*;
use std::hash::{Hash, Hasher, SipHasher};
use crate::noise::NoiseProvider;
use super::{NoiseMap, NoiseMapView};

verus! {

/// The options of a noise map.
pub struct Options {
    pub seed: Seed,
    pub step: Step,
    pub size: Size,
}

/// A property is an option that can be set on a noise map.
pub trait Property: Default + Copy {
    /// The options of a map after this one is set.
    spec fn applied(self, options: Options) -> Options;

    /// Sets this option on `nm`. The map keeps its identity and its source.
    fn set_to<T: NoiseProvider>(self, nm: NoiseMap<T>) -> (updated: NoiseMap<T>)
        ensures
            updated@ == (NoiseMapView { options: self.applied(nm@.options), ..nm@ }),
    ;
}

/// What setting `property` does to the options of a map.
pub open spec fn change_of<P: Property>(property: P) -> spec_fn(Options) -> Options {
    |options: Options| property.applied(options)
}

/// The state of std's `SipHasher`, a hasher with a fixed key.
#[verifier::external_type_specification]
#[verifier::external_body]
pub struct ExSipHasher(SipHasher);

/// std's `SipHasher::new`: makes a hasher whose two keys are 0. Nothing is
/// claimed of it.
#[allow(deprecated)]
pub assume_specification[ SipHasher::new ]() -> (state: SipHasher);

/// std's `Hasher::finish` on a `SipHasher`: the hash of what was written to
/// the hasher. Nothing is claimed of it.
pub assume_specification[ SipHasher::finish ](state: &SipHasher) -> (digest: u64);

/// std's `Hash::hash`: feeds `value` into the hasher. What a value writes
/// is up to its type, so nothing is claimed of the hasher afterwards.
#[verifier::external_body]
fn feed<T: Hash>(value: &T, state: &mut SipHasher) {
    value.hash(state)
}

/// Sets the seed that is used for generating the noise.
#[derive(Copy, Clone, Debug, PartialEq, Eq)]
pub struct Seed {
    pub value: u64,
}

impl Default for Seed {
    fn default() -> (seed: Seed)
        ensures
            seed.value == 0,
    {
        Seed { value: 0 }
    }
}

impl Seed {
    /// Sets the seed to an exact integer value.
    pub fn of_value(value: u64) -> (seed: Seed)
        ensures
            seed.value == value,
    {
        Seed { value: value }
    }

    /// Sets the seed to the hash of whatever is provided, under a hasher
    /// with a fixed key. Which seed a value gets is decided by how its type
    /// hashes itself: every seed can come out, and `of_value` says what the
    /// seed is for each hash.
    #[allow(deprecated)]
    pub fn of<T: Hash>(value: T) -> (seed: Seed) {
        let mut hasher = SipHasher::new();
        feed(&value, &mut hasher);

        Seed::of_value(hasher.finish())
    }
}

impl Property for Seed {
    open spec fn applied(self, options: Options) -> Options {
        Options { seed: self, ..options }
    }

    fn set_to<T: NoiseProvider>(self, nm: NoiseMap<T>) -> (updated: NoiseMap<T>) {
        nm.put_seed(self)
    }
}

/// Sets the increment in x and y for each coordinate in the noise map, as
/// fixed-point numbers.
///
/// The default values of this are 0, so if you do not set this then every
/// value will be the same.
#[derive(Copy, Clone, Debug, PartialEq, Eq)]
pub struct Step {
    pub x: i64,
    pub y: i64,
}

impl Default for Step {
    fn default() -> (step: Step)
        ensures
            step.x == 0,
            step.y == 0,
    {
        Step { x: 0, y: 0 }
    }
}

impl Step {
    /// The step with the increments `x` and `y`, fixed-point numbers.
    pub fn of(x: i64, y: i64) -> (step: Step)
        ensures
            step.x == x,
            step.y == y,
    {
        Step { x: x, y: y }
    }
}

impl Property for Step {
    open spec fn applied(self, options: Options) -> Options {
        Options { step: self, ..options }
    }

    fn set_to<T: NoiseProvider>(self, nm: NoiseMap<T>) -> (updated: NoiseMap<T>) {
        nm.put_step(self)
    }
}

/// Sets the size of the generated chunks.
///
/// The default values of this are 0, so if you do not set this then
/// nothing will be generated. In a combination it needs to be set for only
/// one of the member noisemaps, because the size will be set to whichever is
/// largest when the combination is created.
#[derive(Copy, Clone, Debug, PartialEq, Eq)]
pub struct Size {
    pub w: i64,
    pub h: i64,
}

impl Default for Size {
    fn default() -> (size: Size)
        ensures
            size.w == 0,
            size.h == 0,
    {
        Size { w: 0, h: 0 }
    }
}

impl Size {
    /// The size of chunks that are `w` cells wide and `h` cells high.
    pub fn of(w: i64, h: i64) -> (size: Size)
        ensures
            size.w == w,
            size.h == h,
    {
        Size { w: w, h: h }
    }

    /// The number of cells in a chunk of this size, by which sizes are
    /// ordered.
    pub open spec fn area(self) -> int {
        self.w * self.h
    }

    /// The number of rows in a chunk of this size.
    pub open spec fn rows(self) -> nat {
        if self.h > 0 {
            self.h as nat
        } else {
            0
        }
    }

    /// The number of cells in a row of a chunk of this size.
    pub open spec fn columns(self) -> nat {
        if self.w > 0 {
            self.w as nat
        } else {
            0
        }
    }

    /// Whether the grid coordinates of the chunk `(x, y)` fit in an `i64`.
    pub open spec fn reaches(self, x: int, y: int) -> bool {
        &&& i64::MIN <= x * self.w <= i64::MAX
        &&& i64::MIN <= (x + 1) * self.w <= i64::MAX
        &&& i64::MIN <= y * self.h <= i64::MAX
        &&& i64::MIN <= (y + 1) * self.h <= i64::MAX
    }

    /// The larger of two sizes by area; the second if their areas are
    /// equal.
    pub open spec fn larger_of(first: Size, second: Size) -> Size {
        if first.area() > second.area() {
            first
        } else {
            second
        }
    }

    /// Computes the area.
    pub fn get_area(&self) -> (area: i128)
        ensures
            area == self.area(),
    {
        crate::fixed::widen_product(self.w, self.h)
    }

    /// Tells whether the grid coordinates of the chunk `(x, y)` fit in an
    /// `i64`.
    pub fn can_reach(&self, x: i64, y: i64) -> (ok: bool)
        ensures
            ok == self.reaches(x as int, y as int),
    {
        let left: i128 = crate::fixed::widen_product(x, self.w);
        let top: i128 = crate::fixed::widen_product(y, self.h);
        assert((x + 1) * self.w == x * self.w + self.w) by (nonlinear_arith);
        assert((y + 1) * self.h == y * self.h + self.h) by (nonlinear_arith);
        let right: i128 = left + self.w as i128;
        let bottom: i128 = top + self.h as i128;
        fits(left) && fits(right) && fits(top) && fits(bottom)
    }

    /// The larger of two sizes by area; the second if their areas are
    /// equal.
    pub fn larger(first: Size, second: Size) -> (size: Size)
        ensures
            size == Size::larger_of(first, second),
    {
        if first.get_area() > second.get_area() {
            first
        } else {
            second
        }
    }
}

/// Tells whether `v` fits in an `i64`.
fn fits(v: i128) -> (ok: bool)
    ensures
        ok == (i64::MIN <= v <= i64::MAX),
{
    i64::MIN as i128 <= v && v <= i64::MAX as i128
}

impl Property for Size {
    open spec fn applied(self, options: Options) -> Options {
        Options { size: self, ..options }
    }

    fn set_to<T: NoiseProvider>(self, nm: NoiseMap<T>) -> (updated: NoiseMap<T>) {
        nm.put_size(self)
    }
}

} // verus!
