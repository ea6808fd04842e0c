//! A plane angle, stored in radians of the scalar backend.

use vstd::prelude::*;
use crate::traits::{Cos, Scalar, Sin};

verus! {

/// An angle in radians. The wrapper keeps radians from being confused
/// with plain scalars in signatures such as polar construction.
#[derive(Debug, Clone, Copy, PartialEq)]
pub struct Angle<T> {
    radians: T,
}

impl<T: Scalar> Angle<T> {
    /// The mathematical value of the stored radians.
    pub closed spec fn spec_radians(self) -> int {
        self.radians.as_int()
    }

    pub fn from_radians(radians: T) -> (r: Self)
        ensures
            r.spec_radians() == radians.as_int(),
    {
        Angle { radians }
    }

    pub fn radians(self) -> (r: T)
        ensures
            r.as_int() == self.spec_radians(),
    {
        self.radians
    }

    /// Cosine of the angle, through the scalar backend.
    pub fn cos(self) -> (r: T) where T: Cos
        ensures
            -1 <= r.as_int() <= 1,
    {
        self.radians.cos()
    }

    /// Sine of the angle, through the scalar backend.
    pub fn sin(self) -> (r: T) where T: Sin
        ensures
            -1 <= r.as_int() <= 1,
    {
        self.radians.sin()
    }
}

} // verus!
