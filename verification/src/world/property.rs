//! The options of a world.

use vstd::prelude::*;
use super::{World, WorldView};

pub use crate::noisemap::Size;

verus! {

/// A property is an option that can be set on a world.
pub trait Property: Default + Copy {
    /// The size of the chunks of a world after this option is set.
    spec fn applied(self, size: Size) -> Size;

    /// Sets this option on `w`. The world keeps its tiles.
    fn set_to<T: Clone>(self, w: World<T>) -> (updated: World<T>)
        ensures
            updated@ == (WorldView { size: self.applied(w@.size), ..w@ }),
    ;
}

impl Property for Size {
    open spec fn applied(self, size: Size) -> Size {
        self
    }

    fn set_to<T: Clone>(self, w: World<T>) -> (updated: World<T>) {
        w.set_size(self)
    }
}

} // verus!
