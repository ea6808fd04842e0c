//! The composable affine transform: a linear map plus a translation.
//!
//! `mul` composes on the convention that `a.mul(&b)` applies `b` first and
//! `a` second, so a camera transform reads right to left.

use vstd::prelude::*;
use crate::complex::{Complex, Cx};
use crate::traits::{One, Scalar, Zero};
use crate::vector::{Vec2, Vector};

verus! {

/// The mathematical value of an affine transform: the four entries of the
/// linear part and the translation column, as integers. The transform
/// takes `(x, y)` to `(xx·x + xy·y + tx, yx·x + yy·y + ty)`.
pub ghost struct Mat {
    pub xx: int,
    pub xy: int,
    pub yx: int,
    pub yy: int,
    pub tx: int,
    pub ty: int,
}

/// The transform that moves nothing.
pub open spec fn mat_identity() -> Mat {
    Mat { xx: 1, xy: 0, yx: 0, yy: 1, tx: 0, ty: 0 }
}

/// The pure displacement by `v`: linear part identity.
pub open spec fn mat_translate(v: Vec2) -> Mat {
    Mat { xx: 1, xy: 0, yx: 0, yy: 1, tx: v.x, ty: v.y }
}

/// The pure scale about the origin: a diagonal linear part, no translation.
pub open spec fn mat_scale(sx: int, sy: int) -> Mat {
    Mat { xx: sx, xy: 0, yx: 0, yy: sy, tx: 0, ty: 0 }
}

/// The pure rotation (and scaling) by a complex number about the origin.
pub open spec fn mat_rotate(z: Cx) -> Mat {
    Mat { xx: z.re, xy: -z.im, yx: z.im, yy: z.re, tx: 0, ty: 0 }
}

/// Composition: `mat_mul(a, b)` applies `b` first, then `a`.
pub open spec fn mat_mul(a: Mat, b: Mat) -> Mat {
    Mat {
        xx: a.xx * b.xx + a.xy * b.yx,
        xy: a.xx * b.xy + a.xy * b.yy,
        yx: a.yx * b.xx + a.yy * b.yx,
        yy: a.yx * b.xy + a.yy * b.yy,
        tx: a.xx * b.tx + a.xy * b.ty + a.tx,
        ty: a.yx * b.tx + a.yy * b.ty + a.ty,
    }
}

/// Whether the backend can hold every intermediate value of
/// `mat_mul(a, b)`, in the order the entries are computed.
pub open spec fn mat_mul_fits<T: Scalar>(a: Mat, b: Mat) -> bool {
    &&& T::fits(a.xx * b.xx)
    &&& T::fits(a.xy * b.yx)
    &&& T::fits(a.xx * b.xx + a.xy * b.yx)
    &&& T::fits(a.xx * b.xy)
    &&& T::fits(a.xy * b.yy)
    &&& T::fits(a.xx * b.xy + a.xy * b.yy)
    &&& T::fits(a.yx * b.xx)
    &&& T::fits(a.yy * b.yx)
    &&& T::fits(a.yx * b.xx + a.yy * b.yx)
    &&& T::fits(a.yx * b.xy)
    &&& T::fits(a.yy * b.yy)
    &&& T::fits(a.yx * b.xy + a.yy * b.yy)
    &&& T::fits(a.xx * b.tx)
    &&& T::fits(a.xy * b.ty)
    &&& T::fits(a.xx * b.tx + a.xy * b.ty)
    &&& T::fits(a.xx * b.tx + a.xy * b.ty + a.tx)
    &&& T::fits(a.yx * b.tx)
    &&& T::fits(a.yy * b.ty)
    &&& T::fits(a.yx * b.tx + a.yy * b.ty)
    &&& T::fits(a.yx * b.tx + a.yy * b.ty + a.ty)
}

/// The row `(a1, a2)` against the matrix `b` against the column
/// `(c1, c2)`, bracketed either way.
proof fn lemma_row_mat_col(a1: int, a2: int, b11: int, b12: int, b21: int, b22: int, c1: int, c2: int)
    ensures
        (a1 * b11 + a2 * b21) * c1 + (a1 * b12 + a2 * b22) * c2 == a1 * (b11 * c1 + b12 * c2) + a2
            * (b21 * c1 + b22 * c2),
{
    vstd::arithmetic::mul::lemma_mul_is_distributive_add_other_way(c1, a1 * b11, a2 * b21);
    vstd::arithmetic::mul::lemma_mul_is_distributive_add_other_way(c2, a1 * b12, a2 * b22);
    vstd::arithmetic::mul::lemma_mul_is_distributive_add(a1, b11 * c1, b12 * c2);
    vstd::arithmetic::mul::lemma_mul_is_distributive_add(a2, b21 * c1, b22 * c2);
    vstd::arithmetic::mul::lemma_mul_is_associative(a1, b11, c1);
    vstd::arithmetic::mul::lemma_mul_is_associative(a2, b21, c1);
    vstd::arithmetic::mul::lemma_mul_is_associative(a1, b12, c2);
    vstd::arithmetic::mul::lemma_mul_is_associative(a2, b22, c2);
}

/// Composition of transforms is associative.
pub proof fn lemma_mat_mul_assoc(a: Mat, b: Mat, c: Mat)
    ensures
        mat_mul(mat_mul(a, b), c) == mat_mul(a, mat_mul(b, c)),
{
    lemma_row_mat_col(a.xx, a.xy, b.xx, b.xy, b.yx, b.yy, c.xx, c.yx);
    lemma_row_mat_col(a.xx, a.xy, b.xx, b.xy, b.yx, b.yy, c.xy, c.yy);
    lemma_row_mat_col(a.yx, a.yy, b.xx, b.xy, b.yx, b.yy, c.xx, c.yx);
    lemma_row_mat_col(a.yx, a.yy, b.xx, b.xy, b.yx, b.yy, c.xy, c.yy);
    lemma_row_mat_col(a.xx, a.xy, b.xx, b.xy, b.yx, b.yy, c.tx, c.ty);
    lemma_row_mat_col(a.yx, a.yy, b.xx, b.xy, b.yx, b.yy, c.tx, c.ty);
    vstd::arithmetic::mul::lemma_mul_is_distributive_add(a.xx, b.xx * c.tx + b.xy * c.ty, b.tx);
    vstd::arithmetic::mul::lemma_mul_is_distributive_add(a.xy, b.yx * c.tx + b.yy * c.ty, b.ty);
    vstd::arithmetic::mul::lemma_mul_is_distributive_add(a.yx, b.xx * c.tx + b.xy * c.ty, b.tx);
    vstd::arithmetic::mul::lemma_mul_is_distributive_add(a.yy, b.yx * c.tx + b.yy * c.ty, b.ty);
}

/// The identity transform is neutral on both sides of composition.
pub proof fn lemma_mat_identity(a: Mat)
    ensures
        mat_mul(mat_identity(), a) == a,
        mat_mul(a, mat_identity()) == a,
{
    broadcast use vstd::arithmetic::mul::group_mul_basics;

}

/// Two pure translations compose to the translation by the summed
/// displacement.
pub proof fn lemma_translate_compose(v1: Vec2, v2: Vec2)
    ensures
        mat_mul(mat_translate(v1), mat_translate(v2)) == mat_translate(
            crate::vector::vec2_add(v1, v2),
        ),
{
    broadcast use vstd::arithmetic::mul::group_mul_basics;

}

/// Two pure uniform scales compose to the scale by the product.
pub proof fn lemma_scale_compose(a: int, b: int)
    ensures
        mat_mul(mat_scale(a, a), mat_scale(b, b)) == mat_scale(a * b, a * b),
{
    broadcast use vstd::arithmetic::mul::group_mul_basics;

}

/// An affine transform over the scalar backend: the linear part `xx`,
/// `xy`, `yx`, `yy` and the translation column `tx`, `ty`.
#[derive(Debug, Clone, Copy, PartialEq)]
pub struct Matrix<T> {
    pub xx: T,
    pub xy: T,
    pub yx: T,
    pub yy: T,
    pub tx: T,
    pub ty: T,
}

impl<T: Scalar> View for Matrix<T> {
    type V = Mat;

    open spec fn view(&self) -> Mat {
        Mat {
            xx: self.xx.as_int(),
            xy: self.xy.as_int(),
            yx: self.yx.as_int(),
            yy: self.yy.as_int(),
            tx: self.tx.as_int(),
            ty: self.ty.as_int(),
        }
    }
}

impl<T: Scalar> Matrix<T> {
    /// The transform that moves nothing.
    pub fn identity() -> (r: Self) where T: Zero + One
        ensures
            r@ == mat_identity(),
    {
        let zero = T::zero();
        let one = T::one();
        Matrix { xx: one, xy: zero, yx: zero, yy: one, tx: zero, ty: zero }
    }

    /// The pure displacement by `v`; rotation and scale stay identity.
    pub fn translate(v: Vector<T>) -> (r: Self) where T: Zero + One
        ensures
            r@ == mat_translate(v@),
    {
        let zero = T::zero();
        let one = T::one();
        Matrix { xx: one, xy: zero, yx: zero, yy: one, tx: v.x, ty: v.y }
    }

    /// The pure scale about the origin; translation and rotation stay
    /// identity.
    pub fn scale(sx: T, sy: T) -> (r: Self) where T: Zero
        ensures
            r@ == mat_scale(sx.as_int(), sy.as_int()),
    {
        let zero = T::zero();
        Matrix { xx: sx, xy: zero, yx: zero, yy: sy, tx: zero, ty: zero }
    }

    /// The pure rotation (and scaling) by `rotor` about the origin.
    pub fn rotate(rotor: Complex<T>) -> (r: Self) where T: Zero
        requires
            T::fits(-rotor@.im),
        ensures
            r@ == mat_rotate(rotor@),
    {
        let zero = T::zero();
        let re = *rotor.real_part();
        let im = *rotor.imag();
        Matrix { xx: re, xy: im.neg(), yx: im, yy: re, tx: zero, ty: zero }
    }

    /// Composition: `a.mul(&b)` applies `b` first, then `a`.
    pub fn mul(&self, rhs: &Matrix<T>) -> (r: Self)
        requires
            mat_mul_fits::<T>(self@, rhs@),
        ensures
            r@ == mat_mul(self@, rhs@),
    {
        Matrix {
            xx: self.xx.mul(rhs.xx).add(self.xy.mul(rhs.yx)),
            xy: self.xx.mul(rhs.xy).add(self.xy.mul(rhs.yy)),
            yx: self.yx.mul(rhs.xx).add(self.yy.mul(rhs.yx)),
            yy: self.yx.mul(rhs.xy).add(self.yy.mul(rhs.yy)),
            tx: self.xx.mul(rhs.tx).add(self.xy.mul(rhs.ty)).add(self.tx),
            ty: self.yx.mul(rhs.tx).add(self.yy.mul(rhs.ty)).add(self.ty),
        }
    }

    /// The scale this transform applies along x. Meaningful on a pure
    /// scale (or a product that reduces to one); on a transform carrying
    /// rotation it reads the raw diagonal entry and discards the rest.
    pub fn scale_x(&self) -> (r: T)
        ensures
            r.as_int() == self@.xx,
    {
        self.xx
    }

    /// The scale this transform applies along y. See [`Matrix::scale_x`].
    pub fn scale_y(&self) -> (r: T)
        ensures
            r.as_int() == self@.yy,
    {
        self.yy
    }

    /// The translation column as a displacement.
    pub fn translation(&self) -> (r: Vector<T>)
        ensures
            r@ == (Vec2 { x: self@.tx, y: self@.ty }),
    {
        Vector { x: self.tx, y: self.ty }
    }
}

} // verus!
