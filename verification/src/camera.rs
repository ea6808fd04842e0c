//! A camera: translation, scale and rotation kept as three separate pure
//! transforms, composed on demand, with a centered-zoom update that keeps
//! a chosen pivot fixed on screen.

use vstd::prelude::*;
use crate::complex::Complex;
use crate::matrix::{
    mat_identity, mat_mul, mat_mul_fits, mat_rotate, mat_scale, mat_translate, Mat, Matrix,
};
use crate::point::{Point, Pt2};
use crate::traits::{One, Scalar, Zero};
use crate::vector::{Vec2, Vector};

verus! {

/// The mathematical value of a camera: its three transforms.
pub ghost struct Cam {
    pub translation: Mat,
    pub scale: Mat,
    pub rotation: Mat,
}

/// A pure displacement: the linear part is the identity.
pub open spec fn is_translation_mat(m: Mat) -> bool {
    m.xx == 1 && m.xy == 0 && m.yx == 0 && m.yy == 1
}

/// A pure scale: diagonal linear part, no translation.
pub open spec fn is_scale_mat(m: Mat) -> bool {
    m.xy == 0 && m.yx == 0 && m.tx == 0 && m.ty == 0
}

/// A pure rotation (or rotor-scaling): the shape a rotor produces, with
/// no translation.
pub open spec fn is_rotation_mat(m: Mat) -> bool {
    m.xx == m.yy && m.xy == -m.yx && m.tx == 0 && m.ty == 0
}

/// Every reachable camera keeps each field a pure transform of its kind:
/// the setters only ever store one.
pub open spec fn cam_wf(c: Cam) -> bool {
    is_translation_mat(c.translation) && is_scale_mat(c.scale) && is_rotation_mat(c.rotation)
}

/// The single composed transform the camera hands a renderer: rotate
/// first, then scale, then translate.
pub open spec fn cam_transformation(c: Cam) -> Mat {
    mat_mul(mat_mul(c.translation, c.scale), c.rotation)
}

/// The transform the centered-zoom update composes: pivot to `center`,
/// zoom by `k`, un-pivot from `prev`, after the current translation and
/// scale — left to right here being applied last to first.
pub open spec fn concat_output(tr: Mat, sc: Mat, k: int, center: Pt2, prev: Pt2) -> Mat {
    mat_mul(
        mat_mul(
            mat_mul(
                mat_mul(mat_translate(Vec2 { x: center.x, y: center.y }), mat_scale(k, k)),
                mat_translate(Vec2 { x: -prev.x, y: -prev.y }),
            ),
            tr,
        ),
        sc,
    )
}

/// What the centered-zoom update leaves in the camera: the composed
/// transform's diagonal as the new pure scale and its translation column
/// as the new pure translation, any rotation the product carried
/// discarded; the rotation field is untouched.
pub open spec fn cam_concat(c: Cam, k: int, center: Pt2, prev: Pt2) -> Cam {
    let out = concat_output(c.translation, c.scale, k, center, prev);
    Cam {
        translation: mat_translate(Vec2 { x: out.tx, y: out.ty }),
        scale: mat_scale(out.xx, out.yy),
        rotation: c.rotation,
    }
}

/// Whether the backend can hold every intermediate value of the
/// centered-zoom update, in the order it multiplies.
pub open spec fn concat_fits<T: Scalar>(tr: Mat, sc: Mat, k: int, center: Pt2, prev: Pt2) -> bool {
    let tm = mat_translate(Vec2 { x: center.x, y: center.y });
    let sm = mat_scale(k, k);
    let ti = mat_translate(Vec2 { x: -prev.x, y: -prev.y });
    &&& T::fits(-prev.x)
    &&& T::fits(-prev.y)
    &&& mat_mul_fits::<T>(tm, sm)
    &&& mat_mul_fits::<T>(mat_mul(tm, sm), ti)
    &&& mat_mul_fits::<T>(mat_mul(mat_mul(tm, sm), ti), tr)
    &&& mat_mul_fits::<T>(mat_mul(mat_mul(mat_mul(tm, sm), ti), tr), sc)
}

/// On a well-formed camera the centered-zoom update has a closed form:
/// the scale gains the factor `k` on each axis, and the new translation
/// carries the old one from the previous pivot to the new one, zoomed.
pub proof fn lemma_cam_concat_form(c: Cam, k: int, center: Pt2, prev: Pt2)
    requires
        cam_wf(c),
    ensures
        cam_concat(c, k, center, prev).scale == mat_scale(k * c.scale.xx, k * c.scale.yy),
        cam_concat(c, k, center, prev).translation == mat_translate(
            Vec2 {
                x: k * (c.translation.tx - prev.x) + center.x,
                y: k * (c.translation.ty - prev.y) + center.y,
            },
        ),
        cam_concat(c, k, center, prev).rotation == c.rotation,
{
    broadcast use vstd::arithmetic::mul::group_mul_basics;

    let tm = mat_translate(Vec2 { x: center.x, y: center.y });
    let sm = mat_scale(k, k);
    let ti = mat_translate(Vec2 { x: -prev.x, y: -prev.y });
    let m1 = mat_mul(tm, sm);
    assert(m1 == (Mat { xx: k, xy: 0, yx: 0, yy: k, tx: center.x, ty: center.y }));
    let m2 = mat_mul(m1, ti);
    assert(m2 == (Mat {
        xx: k,
        xy: 0,
        yx: 0,
        yy: k,
        tx: k * -prev.x + center.x,
        ty: k * -prev.y + center.y,
    }));
    let m3 = mat_mul(m2, c.translation);
    assert(m3 == (Mat {
        xx: k,
        xy: 0,
        yx: 0,
        yy: k,
        tx: k * c.translation.tx + (k * -prev.x + center.x),
        ty: k * c.translation.ty + (k * -prev.y + center.y),
    }));
    let m4 = mat_mul(m3, c.scale);
    assert(m4 == (Mat {
        xx: k * c.scale.xx,
        xy: 0,
        yx: 0,
        yy: k * c.scale.yy,
        tx: k * c.translation.tx + (k * -prev.x + center.x),
        ty: k * c.translation.ty + (k * -prev.y + center.y),
    }));
    assert(k * c.translation.tx + k * -prev.x == k * (c.translation.tx - prev.x)) by (nonlinear_arith);
    assert(k * c.translation.ty + k * -prev.y == k * (c.translation.ty - prev.y)) by (nonlinear_arith);
}

/// On a well-formed camera the composed transform has the familiar
/// closed form: the rotor's linear part scaled per axis, and the
/// translation column carried through unchanged — rotation is applied
/// first, scale second, translation last.
pub proof fn lemma_cam_transformation_form(c: Cam)
    requires
        cam_wf(c),
    ensures
        cam_transformation(c) == (Mat {
            xx: c.scale.xx * c.rotation.xx,
            xy: c.scale.xx * c.rotation.xy,
            yx: c.scale.yy * c.rotation.yx,
            yy: c.scale.yy * c.rotation.yy,
            tx: c.translation.tx,
            ty: c.translation.ty,
        }),
{
    broadcast use vstd::arithmetic::mul::group_mul_basics;

    let m1 = mat_mul(c.translation, c.scale);
    assert(m1 == (Mat {
        xx: c.scale.xx,
        xy: 0,
        yx: 0,
        yy: c.scale.yy,
        tx: c.translation.tx,
        ty: c.translation.ty,
    }));
}

/// Zooming by one about the pivot the camera is already anchored to
/// changes nothing: the update leaves a well-formed camera exactly as it
/// was.
pub proof fn lemma_cam_concat_noop(c: Cam, center: Pt2)
    requires
        cam_wf(c),
    ensures
        cam_concat(c, 1, center, center) == c,
{
    lemma_cam_concat_form(c, 1, center, center);
    assert(1 * c.scale.xx == c.scale.xx) by (nonlinear_arith);
    assert(1 * c.scale.yy == c.scale.yy) by (nonlinear_arith);
    assert(1 * (c.translation.tx - center.x) == c.translation.tx - center.x) by (nonlinear_arith);
    assert(1 * (c.translation.ty - center.y) == c.translation.ty - center.y) by (nonlinear_arith);
}

/// Composes the centered-zoom transform and stores its decomposition:
/// the diagonal into `scale_output`, the translation column into
/// `translation_output`. See [`cam_concat`] for what that means.
fn concat_scale_centered<T: Scalar + Zero + One>(
    scale_output: &mut Matrix<T>,
    translation_output: &mut Matrix<T>,
    scale_division: T,
    center: Point<T>,
    prev_center: Point<T>,
)
    requires
        concat_fits::<T>(
            old(translation_output)@,
            old(scale_output)@,
            scale_division.as_int(),
            center@,
            prev_center@,
        ),
    ensures
        final(scale_output)@ == mat_scale(
            concat_output(
                old(translation_output)@,
                old(scale_output)@,
                scale_division.as_int(),
                center@,
                prev_center@,
            ).xx,
            concat_output(
                old(translation_output)@,
                old(scale_output)@,
                scale_division.as_int(),
                center@,
                prev_center@,
            ).yy,
        ),
        final(translation_output)@ == mat_translate(
            Vec2 {
                x: concat_output(
                    old(translation_output)@,
                    old(scale_output)@,
                    scale_division.as_int(),
                    center@,
                    prev_center@,
                ).tx,
                y: concat_output(
                    old(translation_output)@,
                    old(scale_output)@,
                    scale_division.as_int(),
                    center@,
                    prev_center@,
                ).ty,
            },
        ),
{
    proof {
        T::all_fit(center.x);
        T::all_fit(center.y);
    }
    let scale_division_matrix: Matrix<T> = Matrix::scale(scale_division, scale_division);
    let translation = Matrix::translate(center.sub(Point::origin()));
    let inv_translation = Matrix::translate(Point::origin().sub(prev_center));

    let output = translation
        .mul(&scale_division_matrix)
        .mul(&inv_translation)
        .mul(&*translation_output)
        .mul(&*scale_output);

    *scale_output = Matrix::scale(output.scale_x(), output.scale_y());
    *translation_output = Matrix::translate(output.translation());
}

/// Three independently settable pure transforms, composed on demand as
/// `translation * scale * rotation`.
#[derive(Debug)]
pub struct Camera<T> {
    translation: Matrix<T>,
    scale: Matrix<T>,
    rotation: Matrix<T>,
}

impl<T: Scalar> View for Camera<T> {
    type V = Cam;

    closed spec fn view(&self) -> Cam {
        Cam { translation: self.translation@, scale: self.scale@, rotation: self.rotation@ }
    }
}

impl<T: Scalar + Zero + One> Default for Camera<T> {
    /// The camera that moves nothing: identity everywhere.
    fn default() -> (r: Self)
        ensures
            r@.translation == mat_identity(),
            r@.scale == mat_identity(),
            r@.rotation == mat_identity(),
            cam_wf(r@),
    {
        Camera {
            translation: Matrix::identity(),
            scale: Matrix::identity(),
            rotation: Matrix::identity(),
        }
    }
}

impl<T: Scalar> Camera<T> {
    /// Replaces the translation with the displacement from the origin to
    /// `translation`.
    pub fn set_translation(&mut self, translation: Point<T>) where T: Zero + One
        ensures
            final(self)@.translation == mat_translate(
                Vec2 { x: translation@.x, y: translation@.y },
            ),
            final(self)@.scale == old(self)@.scale,
            final(self)@.rotation == old(self)@.rotation,
            cam_wf(old(self)@) ==> cam_wf(final(self)@),
    {
        proof {
            T::all_fit(translation.x);
            T::all_fit(translation.y);
        }
        self.translation = Matrix::translate(translation.sub(Point::origin()));
    }

    /// Replaces the scale with the uniform scale `s`.
    pub fn set_scale(&mut self, s: T) where T: Zero
        ensures
            final(self)@.scale == mat_scale(s.as_int(), s.as_int()),
            final(self)@.translation == old(self)@.translation,
            final(self)@.rotation == old(self)@.rotation,
            cam_wf(old(self)@) ==> cam_wf(final(self)@),
    {
        self.scale = Matrix::scale(s, s);
    }

    /// Replaces the rotation with the rotation by `rotor`.
    pub fn set_rotation(&mut self, rotor: Complex<T>) where T: Zero
        requires
            T::fits(-rotor@.im),
        ensures
            final(self)@.rotation == mat_rotate(rotor@),
            final(self)@.translation == old(self)@.translation,
            final(self)@.scale == old(self)@.scale,
            cam_wf(old(self)@) ==> cam_wf(final(self)@),
    {
        self.rotation = Matrix::rotate(rotor);
    }

    /// Accumulates `vec` onto the current translation: a pan.
    pub fn add_translation(&mut self, vec: Vector<T>) where T: Zero + One
        requires
            T::fits(old(self)@.translation.tx + vec@.x),
            T::fits(old(self)@.translation.ty + vec@.y),
        ensures
            final(self)@.translation == mat_translate(
                Vec2 {
                    x: old(self)@.translation.tx + vec@.x,
                    y: old(self)@.translation.ty + vec@.y,
                },
            ),
            final(self)@.scale == old(self)@.scale,
            final(self)@.rotation == old(self)@.rotation,
            cam_wf(old(self)@) ==> cam_wf(final(self)@),
    {
        self.translation = Matrix::translate(self.translation().translation().add(vec));
    }

    /// The centered zoom: scales by `scale_division` (above one zooms in,
    /// below one zooms out, one does not zoom) anchored so that the point
    /// that was at `prev_center` renders at `center`, zoomed. Updates the
    /// scale and translation together and leaves the rotation alone; see
    /// [`cam_concat`]. Passing a `prev_center` that is not the pivot the
    /// camera is actually anchored to yields a well-defined but visually
    /// wrong transform — that consistency is the caller's contract.
    pub fn concat_scale_centered(
        &mut self,
        scale_division: T,
        center: Point<T>,
        prev_center: Point<T>,
    ) where T: Zero + One
        requires
            concat_fits::<T>(
                old(self)@.translation,
                old(self)@.scale,
                scale_division.as_int(),
                center@,
                prev_center@,
            ),
        ensures
            final(self)@ == cam_concat(
                old(self)@,
                scale_division.as_int(),
                center@,
                prev_center@,
            ),
            cam_wf(old(self)@) ==> cam_wf(final(self)@),
    {
        concat_scale_centered(
            &mut self.scale,
            &mut self.translation,
            scale_division,
            center,
            prev_center,
        )
    }

    /// The translation transform.
    pub fn translation(&self) -> (r: &Matrix<T>)
        ensures
            r@ == self@.translation,
    {
        &self.translation
    }

    /// The scale transform.
    pub fn scale(&self) -> (r: &Matrix<T>)
        ensures
            r@ == self@.scale,
    {
        &self.scale
    }

    /// The rotation transform.
    pub fn rotation(&self) -> (r: &Matrix<T>)
        ensures
            r@ == self@.rotation,
    {
        &self.rotation
    }

    /// The single composed transform for a renderer: rotate first, then
    /// scale, then translate.
    pub fn transformation(&self) -> (r: Matrix<T>)
        requires
            mat_mul_fits::<T>(self@.translation, self@.scale),
            mat_mul_fits::<T>(mat_mul(self@.translation, self@.scale), self@.rotation),
        ensures
            r@ == cam_transformation(self@),
    {
        self.translation.mul(&self.scale).mul(&self.rotation)
    }
}

} // verus!
