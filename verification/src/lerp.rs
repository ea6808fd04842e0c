//! Interpolation primitives.

use vstd::prelude::*;
use crate::complex::Complex;
use crate::point::{pt2_add, pt2_sub, rotated_fits, Point};
use crate::traits::{One, Scalar};
use crate::vector::{rot, Vec2, Vector};

verus! {

/// Interpolation between two points, weighted by a complex number: `a`
/// moved by the offset from `a` to `b` rotated (and scaled) by `t`. With
/// a unit rotor this rotates `b` about `a`; with a general complex weight
/// it combines rotation and scaling on the same path.
pub fn lerp<T: Scalar>(a: Point<T>, b: Point<T>, t: Complex<T>) -> (r: Point<T>)
    requires
        rotated_fits::<T>(b@, a@, t@),
    ensures
        r@ == pt2_add(a@, rot(pt2_sub(b@, a@), t@)),
{
    a.add(b.sub(a).rotate(t))
}

/// The value of scalar-weighted interpolation on the model: each
/// component is `a·(1 − t) + b·t`.
pub open spec fn lerp2_vec(a: Vec2, b: Vec2, t: int) -> Vec2 {
    Vec2 { x: a.x * (1 - t) + b.x * t, y: a.y * (1 - t) + b.y * t }
}

/// Whether the backend can hold every intermediate value of
/// `lerp2_vec(a, b, t)`.
pub open spec fn lerp2_fits<T: Scalar>(a: Vec2, b: Vec2, t: int) -> bool {
    &&& T::fits(1 - t)
    &&& T::fits(a.x * (1 - t))
    &&& T::fits(a.y * (1 - t))
    &&& T::fits(b.x * t)
    &&& T::fits(b.y * t)
    &&& T::fits(a.x * (1 - t) + b.x * t)
    &&& T::fits(a.y * (1 - t) + b.y * t)
}

/// Interpolation between two displacements with a scalar weight. Agrees
/// with [`lerp`] on exact scalars; here the weight is the value copied.
pub fn lerp2<T: Scalar + One>(a: Vector<T>, b: Vector<T>, t: T) -> (r: Vector<T>)
    requires
        lerp2_fits::<T>(a@, b@, t.as_int()),
    ensures
        r@ == lerp2_vec(a@, b@, t.as_int()),
{
    a.mul(T::one().sub(t)).add(b.mul(t))
}

/// What an integration step starts from: the state kept from earlier
/// steps, or the incoming value on the first step.
pub open spec fn proceed_base<T: Scalar>(prev: Option<Vector<T>>, v: Vector<T>) -> Vec2 {
    match prev {
        Some(p) => p@,
        None => v@,
    }
}

/// A smoothing filter: each incoming value is interpolated against the
/// running state with a fixed weight.
#[derive(Debug, Clone)]
pub struct LerpIntegrator<T> {
    pub t: T,
    pub prev: Option<Vector<T>>,
}

impl<T: Scalar + One> LerpIntegrator<T> {
    pub fn new(t: T) -> (r: Self)
        ensures
            r.t == t,
            r.prev is None,
    {
        LerpIntegrator { t, prev: None }
    }

    /// Feeds one value in and returns the new running state.
    pub fn proceed(&mut self, v: Vector<T>) -> (r: Vector<T>)
        requires
            lerp2_fits::<T>(proceed_base(old(self).prev, v), v@, old(self).t.as_int()),
        ensures
            final(self).t == old(self).t,
            final(self).prev == Some(r),
            r@ == lerp2_vec(proceed_base(old(self).prev, v), v@, old(self).t.as_int()),
    {
        let base = match self.prev {
            Some(p) => p,
            None => v,
        };
        let next = lerp2(base, v, self.t);
        self.prev = Some(next);
        next
    }
}

} // verus!
