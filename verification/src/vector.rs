//! A free displacement in the plane.

use vstd::prelude::*;
use crate::angle::Angle;
use crate::complex::{cx_len_sq, cx_inv, Complex, Cx};
use crate::traits::{
    abs_int, div_t, sqrt_floor, Abs, Atan2, Cos, Scalar, Sin, Sq, Sqrt,
};

verus! {

/// The mathematical value of a displacement: a pair of integers.
pub ghost struct Vec2 {
    pub x: int,
    pub y: int,
}

/// Componentwise sum.
pub open spec fn vec2_add(a: Vec2, b: Vec2) -> Vec2 {
    Vec2 { x: a.x + b.x, y: a.y + b.y }
}

/// Componentwise difference.
pub open spec fn vec2_sub(a: Vec2, b: Vec2) -> Vec2 {
    Vec2 { x: a.x - b.x, y: a.y - b.y }
}

/// Scaling by a scalar.
pub open spec fn vec2_scale(a: Vec2, t: int) -> Vec2 {
    Vec2 { x: a.x * t, y: a.y * t }
}

/// Squared euclidean length.
pub open spec fn vec2_len_sq(a: Vec2) -> int {
    a.x * a.x + a.y * a.y
}

/// Rotation (and scaling) of the displacement `v` by the complex number
/// `z`: the complex product of `v` read as a complex number with `z`.
pub open spec fn rot(v: Vec2, z: Cx) -> Vec2 {
    Vec2 { x: v.x * z.re - v.y * z.im, y: v.x * z.im + v.y * z.re }
}

/// Whether the backend can hold every intermediate value of `rot(v, z)`.
pub open spec fn rot_fits<T: Scalar>(v: Vec2, z: Cx) -> bool {
    &&& T::fits(v.x * z.re)
    &&& T::fits(v.y * z.im)
    &&& T::fits(v.x * z.re - v.y * z.im)
    &&& T::fits(v.x * z.im)
    &&& T::fits(v.y * z.re)
    &&& T::fits(v.x * z.im + v.y * z.re)
}

/// Rotating by a rotor and then by its inverse returns the original
/// displacement, provided the rotor has unit magnitude. (A rotor of any
/// other magnitude scales the displacement by its squared magnitude
/// before the inverse's division, so the round trip is not exact there:
/// already `z = 2 + 0i` fails on `v = (1, 0)`.)
pub proof fn lemma_rotate_invert_round_trip(v: Vec2, z: Cx)
    requires
        cx_len_sq(z) == 1,
    ensures
        rot(rot(v, z), cx_inv(z)) == v,
{
    crate::traits::lemma_div_t_one(z.re);
    crate::traits::lemma_div_t_one(-z.im);
    assert(cx_inv(z) == (Cx { re: z.re, im: -z.im }));
    let a = v.x;
    let b = v.y;
    let c = z.re;
    let d = z.im;
    assert((a * c - b * d) * c - (a * d + b * c) * (-d) == a * (c * c + d * d))
        by (nonlinear_arith);
    assert((a * c - b * d) * (-d) + (a * d + b * c) * c == b * (c * c + d * d))
        by (nonlinear_arith);
}

/// A pair `(x, y)` over the scalar backend, read as a displacement.
#[derive(Debug, Clone, Copy, PartialEq)]
pub struct Vector<T> {
    pub x: T,
    pub y: T,
}

impl<T: Scalar> View for Vector<T> {
    type V = Vec2;

    open spec fn view(&self) -> Vec2 {
        Vec2 { x: self.x.as_int(), y: self.y.as_int() }
    }
}

impl<T: Scalar> From<(T, T)> for Vector<T> {
    /// The displacement with the given components.
    fn from(value: (T, T)) -> (r: Self) {
        Vector { x: value.0, y: value.1 }
    }
}

impl<T: Scalar> vstd::std_specs::convert::FromSpecImpl<(T, T)> for Vector<T> {
    open spec fn obeys_from_spec() -> bool {
        true
    }

    open spec fn from_spec(value: (T, T)) -> Self {
        Vector { x: value.0, y: value.1 }
    }
}

impl<T: Scalar> Vector<T> {
    pub fn x(&self) -> (r: &T)
        ensures
            r.as_int() == self@.x,
    {
        &self.x
    }

    pub fn y(&self) -> (r: &T)
        ensures
            r.as_int() == self@.y,
    {
        &self.y
    }

    /// Componentwise sum.
    pub fn add(self, rhs: Self) -> (r: Self)
        requires
            T::fits(self@.x + rhs@.x),
            T::fits(self@.y + rhs@.y),
        ensures
            r@ == vec2_add(self@, rhs@),
    {
        Vector { x: self.x.add(rhs.x), y: self.y.add(rhs.y) }
    }

    /// Componentwise difference.
    pub fn sub(self, rhs: Self) -> (r: Self)
        requires
            T::fits(self@.x - rhs@.x),
            T::fits(self@.y - rhs@.y),
        ensures
            r@ == vec2_sub(self@, rhs@),
    {
        Vector { x: self.x.sub(rhs.x), y: self.y.sub(rhs.y) }
    }

    /// Scaling by a scalar.
    pub fn mul(self, rhs: T) -> (r: Self)
        requires
            T::fits(self@.x * rhs.as_int()),
            T::fits(self@.y * rhs.as_int()),
        ensures
            r@ == vec2_scale(self@, rhs.as_int()),
    {
        Vector { x: self.x.mul(rhs), y: self.y.mul(rhs) }
    }

    /// Componentwise division by a scalar, with the backend's division.
    pub fn div(self, rhs: T) -> (r: Self)
        requires
            rhs.as_int() != 0,
            T::fits(div_t(self@.x, rhs.as_int())),
            T::fits(div_t(self@.y, rhs.as_int())),
        ensures
            r@.x == div_t(self@.x, rhs.as_int()),
            r@.y == div_t(self@.y, rhs.as_int()),
    {
        Vector { x: self.x.div(rhs), y: self.y.div(rhs) }
    }

    /// Rotation (and scaling) by a complex number.
    pub fn rotate(self, rhs: Complex<T>) -> (r: Self)
        requires
            rot_fits::<T>(self@, rhs@),
        ensures
            r@ == rot(self@, rhs@),
    {
        let a = self.x;
        let b = self.y;
        let c = *rhs.real_part();
        let d = *rhs.imag();
        Vector { x: a.mul(c).sub(b.mul(d)), y: a.mul(d).add(b.mul(c)) }
    }

    /// Polar construction. The trigonometric shims promise only unit
    /// magnitude, so only a magnitude bound can be promised here.
    pub fn from_polar(r: T, a: Angle<T>) -> (v: Self) where T: Cos + Sin
        requires
            T::fits(-r.as_int()),
        ensures
            abs_int(v@.x) <= abs_int(r.as_int()),
            abs_int(v@.y) <= abs_int(r.as_int()),
    {
        let z = Complex::from_polar(r, a);
        Vector { x: *z.real_part(), y: *z.imag() }
    }

    /// Squared euclidean length.
    pub fn len_sqr(self) -> (r: T) where T: Sq
        requires
            T::fits(self@.x * self@.x),
            T::fits(self@.y * self@.y),
            T::fits(vec2_len_sq(self@)),
        ensures
            r.as_int() == vec2_len_sq(self@),
    {
        self.x.sq().add(self.y.sq())
    }

    /// Euclidean length: the square root of the sum of squares.
    pub fn len(self) -> (r: T) where T: Sq + Sqrt
        requires
            T::fits(self@.x * self@.x),
            T::fits(self@.y * self@.y),
            T::fits(vec2_len_sq(self@)),
        ensures
            r.as_int() == sqrt_floor(vec2_len_sq(self@)),
    {
        proof {
            assert(vec2_len_sq(self@) >= 0) by (nonlinear_arith);
        }
        self.x.sq().add(self.y.sq()).sqrt()
    }

    /// The sum of the componentwise magnitudes.
    pub fn manhattan_len(self) -> (r: T) where T: Abs
        requires
            T::fits(-self@.x),
            T::fits(-self@.y),
            T::fits(abs_int(self@.x) + abs_int(self@.y)),
        ensures
            r.as_int() == abs_int(self@.x) + abs_int(self@.y),
    {
        self.x.abs().add(self.y.abs())
    }

    /// The displacement divided by its own length. The zero displacement
    /// has no direction and is excluded.
    pub fn norm(self) -> (r: Self) where T: Sq + Sqrt
        requires
            !(self@.x == 0 && self@.y == 0),
            T::fits(self@.x * self@.x),
            T::fits(self@.y * self@.y),
            T::fits(vec2_len_sq(self@)),
        ensures
            r@.x == div_t(self@.x, sqrt_floor(vec2_len_sq(self@))),
            r@.y == div_t(self@.y, sqrt_floor(vec2_len_sq(self@))),
    {
        let l = self.len();
        proof {
            lemma_norm_divisor_positive(self@);
            T::fits_zero();
            T::all_fit(self.x);
            T::all_fit(self.y);
            crate::traits::lemma_div_t_fits::<T>(self@.x, l.as_int());
            crate::traits::lemma_div_t_fits::<T>(self@.y, l.as_int());
        }
        self.div(l)
    }

    /// The direction of the displacement as a rotor: its normalized
    /// components read as a complex number.
    pub fn rotor(self) -> (r: Complex<T>) where T: Sq + Sqrt
        requires
            !(self@.x == 0 && self@.y == 0),
            T::fits(self@.x * self@.x),
            T::fits(self@.y * self@.y),
            T::fits(vec2_len_sq(self@)),
        ensures
            r@.re == div_t(self@.x, sqrt_floor(vec2_len_sq(self@))),
            r@.im == div_t(self@.y, sqrt_floor(vec2_len_sq(self@))),
    {
        let n = self.norm();
        Complex::from_cartesian(n.x, n.y)
    }

    /// The inner product.
    pub fn dot(self, rhs: Self) -> (r: T)
        requires
            T::fits(self@.x * rhs@.x),
            T::fits(self@.y * rhs@.y),
            T::fits(self@.x * rhs@.x + self@.y * rhs@.y),
        ensures
            r.as_int() == self@.x * rhs@.x + self@.y * rhs@.y,
    {
        self.x.mul(rhs.x).add(self.y.mul(rhs.y))
    }

    /// The planar cross product: the signed area the two displacements span.
    pub fn cross(self, rhs: Self) -> (r: T)
        requires
            T::fits(self@.x * rhs@.y),
            T::fits(self@.y * rhs@.x),
            T::fits(self@.x * rhs@.y - self@.y * rhs@.x),
        ensures
            r.as_int() == self@.x * rhs@.y - self@.y * rhs@.x,
    {
        self.x.mul(rhs.y).sub(self.y.mul(rhs.x))
    }

    /// The angle of the displacement, through the backend's arctangent.
    pub fn angle(self) -> Angle<T> where T: Atan2 {
        self.y.atan2(self.x)
    }
}

/// The length of a non-zero displacement is at least one.
proof fn lemma_norm_divisor_positive(v: Vec2)
    requires
        !(v.x == 0 && v.y == 0),
    ensures
        sqrt_floor(vec2_len_sq(v)) >= 1,
{
    crate::complex::lemma_len_sq_positive(v.x, v.y);
    crate::traits::lemma_sqrt_floor_bounds(vec2_len_sq(v));
    let s = sqrt_floor(vec2_len_sq(v));
    if s == 0 {
        assert((s + 1) * (s + 1) == 1) by (nonlinear_arith)
            requires
                s == 0,
        ;
        assert(vec2_len_sq(v) < 1);
    }
}

} // verus!
