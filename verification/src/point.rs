//! A location in the plane, kept apart from displacements at the type
//! level: the difference of two points is a vector, a point plus a vector
//! is a point, and points are never added to points.

use vstd::prelude::*;
use crate::complex::{Complex, Cx};
use crate::lerp::lerp;
use crate::traits::{sqrt_floor, Scalar, Sq, Sqrt, Zero};
use crate::vector::{rot, rot_fits, vec2_len_sq, Vec2, Vector};

verus! {

/// The mathematical value of a location: a pair of integers.
pub ghost struct Pt2 {
    pub x: int,
    pub y: int,
}

/// A point moved by a displacement.
pub open spec fn pt2_add(p: Pt2, v: Vec2) -> Pt2 {
    Pt2 { x: p.x + v.x, y: p.y + v.y }
}

/// The displacement from `q` to `p`.
pub open spec fn pt2_sub(p: Pt2, q: Pt2) -> Vec2 {
    Vec2 { x: p.x - q.x, y: p.y - q.y }
}

/// Moving `q` by the displacement from `q` to `p` arrives at `p`: the
/// round trip of point difference and point translation.
pub proof fn lemma_point_round_trip(p: Pt2, q: Pt2)
    ensures
        pt2_add(q, pt2_sub(p, q)) == p,
{
}

/// A pair `(x, y)` over the scalar backend, read as a location.
#[derive(Debug, Clone, Copy, PartialEq)]
pub struct Point<T> {
    pub x: T,
    pub y: T,
}

impl<T: Scalar> View for Point<T> {
    type V = Pt2;

    open spec fn view(&self) -> Pt2 {
        Pt2 { x: self.x.as_int(), y: self.y.as_int() }
    }
}

/// Whether the backend can hold every intermediate value of rotating
/// `p` about `center` by `z`.
pub open spec fn rotated_fits<T: Scalar>(p: Pt2, center: Pt2, z: Cx) -> bool {
    &&& T::fits(p.x - center.x)
    &&& T::fits(p.y - center.y)
    &&& rot_fits::<T>(pt2_sub(p, center), z)
    &&& T::fits(center.x + rot(pt2_sub(p, center), z).x)
    &&& T::fits(center.y + rot(pt2_sub(p, center), z).y)
}

impl<T: Scalar> From<(T, T)> for Point<T> {
    /// The location with the given coordinates.
    fn from(value: (T, T)) -> (r: Self) {
        Point { x: value.0, y: value.1 }
    }
}

impl<T: Scalar> vstd::std_specs::convert::FromSpecImpl<(T, T)> for Point<T> {
    open spec fn obeys_from_spec() -> bool {
        true
    }

    open spec fn from_spec(value: (T, T)) -> Self {
        Point { x: value.0, y: value.1 }
    }
}

impl<T: Scalar> Point<T> {
    /// The additive identity location.
    pub fn origin() -> (r: Self) where T: Zero
        ensures
            r@ == (Pt2 { x: 0, y: 0 }),
    {
        Point { x: T::zero(), y: T::zero() }
    }

    pub fn x(&self) -> (r: &T)
        ensures
            r.as_int() == self@.x,
    {
        &self.x
    }

    pub fn y(&self) -> (r: &T)
        ensures
            r.as_int() == self@.y,
    {
        &self.y
    }

    /// The displacement from `rhs` to `self`.
    pub fn sub(self, rhs: Self) -> (r: Vector<T>)
        requires
            T::fits(self@.x - rhs@.x),
            T::fits(self@.y - rhs@.y),
        ensures
            r@ == pt2_sub(self@, rhs@),
    {
        Vector { x: self.x.sub(rhs.x), y: self.y.sub(rhs.y) }
    }

    /// The location moved by a displacement.
    pub fn add(self, rhs: Vector<T>) -> (r: Self)
        requires
            T::fits(self@.x + rhs@.x),
            T::fits(self@.y + rhs@.y),
        ensures
            r@ == pt2_add(self@, rhs@),
    {
        Point { x: self.x.add(rhs.x), y: self.y.add(rhs.y) }
    }

    /// The location moved against a displacement.
    pub fn sub_vector(self, rhs: Vector<T>) -> (r: Self)
        requires
            T::fits(self@.x - rhs@.x),
            T::fits(self@.y - rhs@.y),
        ensures
            r@ == (Pt2 { x: self@.x - rhs@.x, y: self@.y - rhs@.y }),
    {
        Point { x: self.x.sub(rhs.x), y: self.y.sub(rhs.y) }
    }

    /// This point, read as an offset from `origin`, as an absolute location.
    pub fn absolute(self, origin: Point<T>) -> (r: Self)
        requires
            T::fits(origin@.x + self@.x),
            T::fits(origin@.y + self@.y),
        ensures
            r@ == (Pt2 { x: origin@.x + self@.x, y: origin@.y + self@.y }),
    {
        Point { x: origin.x.add(self.x), y: origin.y.add(self.y) }
    }

    /// This absolute location, as an offset from `origin`.
    pub fn relative(self, origin: Point<T>) -> (r: Self)
        requires
            T::fits(self@.x - origin@.x),
            T::fits(self@.y - origin@.y),
        ensures
            r@ == (Pt2 { x: self@.x - origin@.x, y: self@.y - origin@.y }),
    {
        Point { x: self.x.sub(origin.x), y: self.y.sub(origin.y) }
    }

    /// The euclidean distance to `rhs`.
    pub fn distance(self, rhs: Point<T>) -> (r: T) where T: Sq + Sqrt
        requires
            T::fits(self@.x - rhs@.x),
            T::fits(self@.y - rhs@.y),
            T::fits((self@.x - rhs@.x) * (self@.x - rhs@.x)),
            T::fits((self@.y - rhs@.y) * (self@.y - rhs@.y)),
            T::fits(vec2_len_sq(pt2_sub(self@, rhs@))),
        ensures
            r.as_int() == sqrt_floor(vec2_len_sq(pt2_sub(self@, rhs@))),
    {
        self.sub(rhs).len()
    }

    /// This point rotated (and scaled) about `center` by `rotor`:
    /// interpolation from `center` weighted by the rotor, which moves
    /// `center` by the rotated offset of this point from `center`.
    pub fn rotated(&self, center: Point<T>, rotor: Complex<T>) -> (r: Point<T>)
        requires
            rotated_fits::<T>((*self)@, center@, rotor@),
        ensures
            r@ == pt2_add(center@, rot(pt2_sub((*self)@, center@), rotor@)),
    {
        lerp(center, *self, rotor)
    }
}

} // verus!
