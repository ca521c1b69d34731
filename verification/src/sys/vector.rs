//! A plain two-dimensional vector.

use vstd::prelude::*;

verus! {

/// A pair of coordinates. Packets carry one to describe a position on the
/// game's integer grid; other instantiations are free to pick their own
/// component type.
#[derive(Clone, Copy, PartialEq, Eq, Structural, Debug)]
pub struct Vector<T> {
    pub x: T,
    pub y: T,
}

impl<T> Vector<T> {
    /// Creates the vector with the given components.
    pub fn new(x: T, y: T) -> (v: Vector<T>)
        ensures
            v.x == x,
            v.y == y,
    {
        Vector { x, y }
    }
}

} // verus!
