//! Measurement units: mass, volume, and density as their quotient, kept
//! apart at the type level so dimensions cannot be mixed up.

use vstd::prelude::*;
use crate::rational::Rational;
use crate::traits::Scalar;

verus! {

/// A mass in kilograms.
#[derive(Debug, Clone, Copy, PartialEq, Eq, Hash)]
pub struct Kg<T>(pub T);

/// A volume in cubic meters.
#[derive(Debug, Clone, Copy, PartialEq, Eq, Hash)]
pub struct M3<T>(pub T);

/// A density: mass over volume, kept as the exact ratio.
#[derive(Debug, Clone, Copy, PartialEq, Eq, Hash)]
pub struct KgPerM3<T>(pub Rational<Kg<T>, M3<T>>);

impl<T: Scalar> M3<T> {
    /// Volumes add.
    pub fn add(self, rhs: M3<T>) -> (r: M3<T>)
        requires
            T::fits(self.0.as_int() + rhs.0.as_int()),
        ensures
            r.0.as_int() == self.0.as_int() + rhs.0.as_int(),
    {
        M3(self.0.add(rhs.0))
    }

    /// Volumes subtract.
    pub fn sub(self, rhs: M3<T>) -> (r: M3<T>)
        requires
            T::fits(self.0.as_int() - rhs.0.as_int()),
        ensures
            r.0.as_int() == self.0.as_int() - rhs.0.as_int(),
    {
        M3(self.0.sub(rhs.0))
    }

    /// A volume scales by a bare factor.
    pub fn mul(self, rhs: T) -> (r: M3<T>)
        requires
            T::fits(self.0.as_int() * rhs.as_int()),
        ensures
            r.0.as_int() == self.0.as_int() * rhs.as_int(),
    {
        M3(self.0.mul(rhs))
    }
}

impl<T> Kg<T> {
    /// Mass over volume is a density; the ratio is kept exactly.
    pub fn div(self, rhs: M3<T>) -> (r: KgPerM3<T>)
        ensures
            r.0.num == self,
            r.0.den == rhs,
    {
        KgPerM3(Rational::new(self, rhs))
    }
}

} // verus!
