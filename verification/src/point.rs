//! A pair of coordinates of one type.

use vstd::prelude::*;

verus! {

/// Two coordinates of the same type `T`.
pub struct Point<T> {
    pub x: T,
    pub y: T,
}

impl<T> Point<T> {
    /// The point whose coordinates are `x` and `y`.
    pub open spec fn spec_new(x: T, y: T) -> Point<T> {
        Point { x, y }
    }

    /// Builds a point from its two coordinates, stored as given.
    #[verifier::when_used_as_spec(spec_new)]
    pub fn new(x: T, y: T) -> (p: Point<T>)
        ensures
            p == Self::spec_new(x, y),
    {
        Point { x, y }
    }

    /// The first coordinate.
    pub open spec fn spec_x(&self) -> &T {
        &self.x
    }

    /// Borrows the first coordinate.
    #[verifier::when_used_as_spec(spec_x)]
    pub fn x(&self) -> (r: &T)
        ensures
            r == self.spec_x(),
    {
        &self.x
    }
}

/// Builds a point from its two coordinates: the same point as `Point::new`.
pub fn make_point<T>(x: T, y: T) -> (p: Point<T>)
    ensures
        p == Point::new(x, y),
{
    Point { x, y }
}

/// A point built from `a` and `b` has `a` as its first coordinate and `b` as
/// its second.
pub proof fn lemma_new_keeps_coordinates<T>(a: T, b: T)
    ensures
        *Point::new(a, b).x() == a,
        Point::new(a, b).y == b,
{
}

} // verus!
