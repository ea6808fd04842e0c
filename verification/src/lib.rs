//! A 2D geometry and transform algebra, generic over its scalar type.
//!
//! Points, vectors and rotors (complex numbers used as rotations) feed a
//! single composable affine transform, [`Matrix`], and a [`Camera`] that
//! keeps translation, scale and rotation as three separate pure transforms
//! with a centered-zoom update. Every operation carries a contract stated
//! over a mathematical model of the scalars, and the algebraic laws of the
//! design — associativity and identity of composition, how pure translates
//! and scales compose, the rotor round trip, and that a unit zoom in place
//! changes nothing — are proved as lemmas over those models.
//!
//! The scalar type is abstract: the algebra asks for its arithmetic
//! through [`Scalar`] and the elementary-function traits beside it, and
//! verified integer backends are provided. Approximate backends such as
//! floating point sit outside the verified core.

use vstd::prelude::*;

mod angle;
mod camera;
mod complex;
mod lerp;
mod matrix;
mod misc;
mod non_neg;
mod positive;
mod rational;
mod point;
mod traits;
mod vector;

pub mod physics;
pub mod range;

pub use angle::Angle;
pub use camera::{
    cam_concat, cam_transformation, cam_wf, concat_fits, concat_output, is_rotation_mat,
    is_scale_mat, is_translation_mat, lemma_cam_concat_form, lemma_cam_concat_noop,
    lemma_cam_transformation_form, Cam, Camera,
};
pub use complex::{
    cx_add, cx_div_vec, cx_inv, cx_len_sq, cx_mul, cx_mul_fits, lemma_len_sq_positive, Complex, Cx,
};
pub use lerp::{lerp, lerp2, lerp2_fits, lerp2_vec, proceed_base, LerpIntegrator};
pub use misc::{
    clamp_into_range, clamp_spec, fit_into_range, fit_into_range_inclusive, map_into_range,
    map_into_range_inclusive, map_range_fits, map_range_spec, sign, FitIntoRangeError,
    FitIntoRangeInclusiveError,
};
pub use non_neg::{AbsAsNonNeg, NegError, NonNeg};
pub use positive::{NotPositiveError, Positive};
pub use rational::Rational;
pub use matrix::{
    lemma_mat_identity, lemma_mat_mul_assoc, lemma_scale_compose, lemma_translate_compose, Mat,
    mat_identity, mat_mul, mat_mul_fits, mat_rotate, mat_scale, mat_translate, Matrix,
};
pub use point::{
    lemma_point_round_trip, pt2_add, pt2_sub, rotated_fits, Point, Pt2,
};
pub use traits::{
    Abs, Atan2, Clamp, Cos, DegToRad, Floor, IsNeg, IsPositive, MinusOne, One, Pi, RadToDeg,
    RemEuclid, Round, Scalar, SignedSq, SignedSqrt, Sin, Sq, Sqrt, Two, Zero,
};
pub use traits::{
    abs_int, div_t, lemma_div_t_bounds, lemma_div_t_fits, lemma_div_t_one,
    lemma_sqrt_floor_bounds, lemma_sqrt_floor_unique, sqrt_floor,
};
pub use vector::{
    lemma_rotate_invert_round_trip, rot, rot_fits, vec2_add, vec2_len_sq, vec2_scale, vec2_sub,
    Vec2, Vector,
};
