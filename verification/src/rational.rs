//! A ratio kept as its numerator and denominator, without reduction.

use vstd::prelude::*;

verus! {

/// A numerator over a denominator, possibly of different types; the pair
/// is stored as given and never reduced.
#[derive(Debug, Clone, Copy, PartialEq, Eq, Hash)]
pub struct Rational<N, D> {
    pub num: N,
    pub den: D,
}

impl<N, D> Rational<N, D> {
    pub fn new(num: N, den: D) -> (r: Self)
        ensures
            r.num == num,
            r.den == den,
    {
        Rational { num, den }
    }
}

} // verus!
