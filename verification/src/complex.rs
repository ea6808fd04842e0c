//! A two-component algebraic number, and — at unit magnitude — a rotor.

use vstd::prelude::*;
use crate::angle::Angle;
use crate::point::Point;
use crate::traits::{abs_int, div_t, Cos, Scalar, Sin, Sq};
use crate::vector::Vector;

verus! {

/// The mathematical value of a complex number: a pair of integers.
pub ghost struct Cx {
    pub re: int,
    pub im: int,
}

/// Componentwise sum.
pub open spec fn cx_add(p: Cx, q: Cx) -> Cx {
    Cx { re: p.re + q.re, im: p.im + q.im }
}

/// The complex product; composing two rotors composes their rotations.
pub open spec fn cx_mul(p: Cx, q: Cx) -> Cx {
    Cx { re: p.re * q.re - p.im * q.im, im: p.re * q.im + p.im * q.re }
}

/// Squared magnitude.
pub open spec fn cx_len_sq(z: Cx) -> int {
    z.re * z.re + z.im * z.im
}

/// The multiplicative inverse: the conjugate divided by the squared
/// magnitude, with the scalar backend's division.
pub open spec fn cx_inv(z: Cx) -> Cx {
    Cx { re: div_t(z.re, cx_len_sq(z)), im: div_t(-z.im, cx_len_sq(z)) }
}

/// The ratio of two vectors as a complex number: `a` times the conjugate
/// of `b`, divided by the squared magnitude of `b`.
pub open spec fn cx_div_vec(a: crate::vector::Vec2, b: crate::vector::Vec2) -> Cx {
    let n = b.x * b.x + b.y * b.y;
    Cx { re: div_t(a.x * b.x + a.y * b.y, n), im: div_t(a.y * b.x - a.x * b.y, n) }
}

/// Whether the backend can hold every intermediate value of the complex
/// product `p * q`.
pub open spec fn cx_mul_fits<T: Scalar>(p: Cx, q: Cx) -> bool {
    &&& T::fits(p.re * q.re)
    &&& T::fits(p.im * q.im)
    &&& T::fits(p.re * q.re - p.im * q.im)
    &&& T::fits(p.re * q.im)
    &&& T::fits(p.im * q.re)
    &&& T::fits(p.re * q.im + p.im * q.re)
}

/// A pair `(real, imag)` over the scalar backend. Arithmetic on it is the
/// exact ring algebra of the backend; no unit-magnitude constraint is
/// enforced — callers supply unit rotors where rotation is meant.
#[derive(Debug, Clone, Copy)]
pub struct Complex<T> {
    pub re: T,
    pub im: T,
}

impl<T: Scalar> View for Complex<T> {
    type V = Cx;

    open spec fn view(&self) -> Cx {
        Cx { re: self.re.as_int(), im: self.im.as_int() }
    }
}

impl<T: Scalar> From<(T, T)> for Complex<T> {
    /// The complex number with the given real and imaginary parts.
    fn from(value: (T, T)) -> (r: Self) {
        Complex { re: value.0, im: value.1 }
    }
}

impl<T: Scalar> vstd::std_specs::convert::FromSpecImpl<(T, T)> for Complex<T> {
    open spec fn obeys_from_spec() -> bool {
        true
    }

    open spec fn from_spec(value: (T, T)) -> Self {
        Complex { re: value.0, im: value.1 }
    }
}

impl<T: Scalar> Complex<T> {
    pub fn from_cartesian(re: T, im: T) -> (r: Self)
        ensures
            r@ == (Cx { re: re.as_int(), im: im.as_int() }),
    {
        Complex { re, im }
    }

    /// Polar construction. The trigonometric shims promise only unit
    /// magnitude, so only a magnitude bound can be promised here.
    pub fn from_polar(r: T, a: Angle<T>) -> (z: Self) where T: Cos + Sin
        requires
            T::fits(-r.as_int()),
        ensures
            abs_int(z@.re) <= abs_int(r.as_int()),
            abs_int(z@.im) <= abs_int(r.as_int()),
    {
        let c = a.cos();
        let s = a.sin();
        proof {
            T::all_fit(r);
            lemma_unit_product_bounded::<T>(c.as_int(), r.as_int());
            lemma_unit_product_bounded::<T>(s.as_int(), r.as_int());
        }
        Complex { re: c.mul(r), im: s.mul(r) }
    }

    pub fn real_part(&self) -> (r: &T)
        ensures
            r.as_int() == self@.re,
    {
        &self.re
    }

    pub fn imag(&self) -> (r: &T)
        ensures
            r.as_int() == self@.im,
    {
        &self.im
    }

    /// The components as a location in the plane.
    pub fn into_cartesian(self) -> (r: Point<T>)
        ensures
            r@.x == self@.re,
            r@.y == self@.im,
    {
        Point { x: self.re, y: self.im }
    }

    /// The rotation (and scaling) that takes `v1` to `v0`, as a complex
    /// number: `v0` times the conjugate of `v1`, divided by `|v1|^2`.
    pub fn div(v0: Vector<T>, v1: Vector<T>) -> (r: Self) where T: Sq
        requires
            !(v1@.x == 0 && v1@.y == 0),
            T::fits(v1@.x * v1@.x),
            T::fits(v1@.y * v1@.y),
            T::fits(v1@.x * v1@.x + v1@.y * v1@.y),
            T::fits(v0@.x * v1@.x),
            T::fits(v0@.y * v1@.y),
            T::fits(v0@.x * v1@.x + v0@.y * v1@.y),
            T::fits(v0@.y * v1@.x),
            T::fits(v0@.x * v1@.y),
            T::fits(v0@.y * v1@.x - v0@.x * v1@.y),
        ensures
            r@ == cx_div_vec(v0@, v1@),
    {
        let a = v0.x;
        let b = v0.y;
        let c = v1.x;
        let d = v1.y;
        proof {
            lemma_len_sq_positive(v1@.x, v1@.y);
            T::fits_zero();
            crate::traits::lemma_div_t_fits::<T>(
                v0@.x * v1@.x + v0@.y * v1@.y,
                v1@.x * v1@.x + v1@.y * v1@.y,
            );
            crate::traits::lemma_div_t_fits::<T>(
                v0@.y * v1@.x - v0@.x * v1@.y,
                v1@.x * v1@.x + v1@.y * v1@.y,
            );
        }
        let len_sq = c.sq().add(d.sq());
        Complex {
            re: a.mul(c).add(b.mul(d)).div(len_sq),
            im: b.mul(c).sub(a.mul(d)).div(len_sq),
        }
    }

    /// Rotation (and scaling) of a displacement, the rotor on the left;
    /// the same operation as [`Vector::rotate`] with the operands swapped.
    pub fn mul_vec(self, rhs: Vector<T>) -> (r: Vector<T>)
        requires
            crate::vector::rot_fits::<T>(rhs@, self@),
        ensures
            r@ == crate::vector::rot(rhs@, self@),
    {
        rhs.rotate(self)
    }

    /// Componentwise sum.
    pub fn add(self, rhs: Self) -> (r: Self)
        requires
            T::fits(self@.re + rhs@.re),
            T::fits(self@.im + rhs@.im),
        ensures
            r@ == cx_add(self@, rhs@),
    {
        Complex { re: self.re.add(rhs.re), im: self.im.add(rhs.im) }
    }

    /// The complex product.
    pub fn mul(self, rhs: Self) -> (r: Self)
        requires
            cx_mul_fits::<T>(self@, rhs@),
        ensures
            r@ == cx_mul(self@, rhs@),
    {
        let a = self.re;
        let b = self.im;
        let c = rhs.re;
        let d = rhs.im;
        Complex { re: a.mul(c).sub(b.mul(d)), im: a.mul(d).add(b.mul(c)) }
    }

    /// The multiplicative inverse: conjugate over squared magnitude.
    /// Exact on a unit rotor; division follows the backend elsewhere.
    pub fn invert(self) -> (r: Self) where T: Sq
        requires
            !(self@.re == 0 && self@.im == 0),
            T::fits(self@.re * self@.re),
            T::fits(self@.im * self@.im),
            T::fits(self@.re * self@.re + self@.im * self@.im),
            T::fits(-self@.im),
        ensures
            r@ == cx_inv(self@),
    {
        proof {
            lemma_len_sq_positive(self@.re, self@.im);
            T::fits_zero();
            T::all_fit(self.re);
            crate::traits::lemma_div_t_fits::<T>(self@.re, cx_len_sq(self@));
            crate::traits::lemma_div_t_fits::<T>(-self@.im, cx_len_sq(self@));
        }
        let len_sq = self.re.sq().add(self.im.sq());
        Complex { re: self.re.div(len_sq), im: self.im.neg().div(len_sq) }
    }
}

/// A sum of squares of a pair that is not both zero is at least one.
pub proof fn lemma_len_sq_positive(x: int, y: int)
    requires
        !(x == 0 && y == 0),
    ensures
        x * x + y * y >= 1,
{
    assert(x * x + y * y >= 1) by (nonlinear_arith)
        requires
            !(x == 0 && y == 0),
    ;
}

/// A product with a factor of at most unit magnitude does not grow.
proof fn lemma_unit_product_bounded<T: Scalar>(c: int, r: int)
    requires
        -1 <= c <= 1,
        T::fits(r),
        T::fits(-r),
    ensures
        T::fits(c * r),
        abs_int(c * r) <= abs_int(r),
{
    assert(-abs_int(r) <= c * r <= abs_int(r)) by (nonlinear_arith)
        requires
            -1 <= c <= 1,
    ;
    if r >= 0 {
        T::fits_between(-r, r, c * r);
    } else {
        T::fits_between(r, -r, c * r);
    }
}

} // verus!
