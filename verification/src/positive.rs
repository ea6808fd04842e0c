//! A scalar statically known to be strictly positive.

use vstd::prelude::*;
use crate::traits::{div_t, sqrt_floor, Floor, IsPositive, Scalar, Sqrt};

verus! {

/// Cannot store zero or negative numbers: construction rejects them and
/// every operation keeps the stored value above zero.
#[derive(Copy, Debug)]
pub struct Positive<T: Scalar> {
    pub(crate) value: T,
}

impl<T: Scalar> Clone for Positive<T> {
    fn clone(&self) -> (r: Self)
        ensures
            r == *self,
    {
        *self
    }
}

impl<T: Scalar> View for Positive<T> {
    type V = int;

    closed spec fn view(&self) -> int {
        self.value.as_int()
    }
}

impl<T: Scalar> Positive<T> {
    #[verifier::type_invariant]
    pub(crate) open spec fn inv(self) -> bool {
        self.value.as_int() > 0
    }
}

/// A rejected construction: the offered value was not strictly positive.
#[derive(Debug, Clone, Copy)]
pub struct NotPositiveError<T> {
    pub(crate) original_value: T,
}

impl<T: Scalar> View for NotPositiveError<T> {
    type V = int;

    closed spec fn view(&self) -> int {
        self.original_value.as_int()
    }
}

impl<T: Scalar> NotPositiveError<T> {
    /// The value whose construction was rejected.
    pub fn original_value(self) -> (r: T)
        ensures
            r.as_int() == self@,
    {
        self.original_value
    }
}

impl<T: Scalar> Positive<T> {
    /// Accepts exactly the strictly positive values; any other value
    /// comes back in the error.
    pub fn new(value: T) -> (r: Result<Self, NotPositiveError<T>>) where T: IsPositive
        ensures
            value.as_int() > 0 <==> r is Ok,
            r matches Ok(p) ==> p@ == value.as_int(),
            r matches Err(e) ==> e@ == value.as_int(),
    {
        if value.is_positive() {
            Ok(Positive { value })
        } else {
            Err(NotPositiveError { original_value: value })
        }
    }

    /// The stored value; always above zero.
    pub fn into_inner(self) -> (r: T)
        ensures
            r.as_int() == self@,
            self@ > 0,
    {
        proof {
            use_type_invariant(&self);
        }
        self.value
    }

    /// The stored value; always above zero. Kept beside
    /// [`Positive::into_inner`] for callers of the older name.
    pub fn unwrap(self) -> (r: T)
        ensures
            r.as_int() == self@,
            self@ > 0,
    {
        self.into_inner()
    }

    /// The square root; stays positive.
    pub fn sqrt(self) -> (r: Positive<T>) where T: Sqrt
        ensures
            r@ == sqrt_floor(self@),
    {
        proof {
            use_type_invariant(&self);
            crate::traits::lemma_sqrt_floor_bounds(self@);
            let s = sqrt_floor(self@);
            if s == 0 {
                assert((s + 1) * (s + 1) == 1) by (nonlinear_arith)
                    requires
                        s == 0,
                ;
            }
        }
        Positive { value: self.value.sqrt() }
    }

    /// Rounding down; stays positive, and never grows.
    pub fn floor(self) -> (r: Positive<T>) where T: Floor
        ensures
            0 < r@ <= self@,
    {
        proof {
            use_type_invariant(&self);
        }
        Positive { value: self.value.floor() }
    }

    /// Subtracts in place when the result stays positive; otherwise
    /// leaves the value alone and hands the subtrahend back.
    pub fn sub_assign(&mut self, rhs: Self) -> (r: Result<(), Self>)
        ensures
            old(self)@ > rhs@ ==> final(self)@ == old(self)@ - rhs@ && r is Ok,
            old(self)@ <= rhs@ ==> *final(self) == *old(self) && r == Err::<(), Self>(rhs),
    {
        proof {
            use_type_invariant(&*self);
            use_type_invariant(&rhs);
        }
        if rhs.value.lt(self.value) {
            proof {
                T::all_fit(self.value);
                T::fits_zero();
                T::fits_between(0, self.value.as_int(), self.value.as_int() - rhs.value.as_int());
            }
            self.value = self.value.sub(rhs.value);
            Ok(())
        } else {
            Err(rhs)
        }
    }

    /// Sum; positive values stay positive.
    pub fn add(self, rhs: Positive<T>) -> (r: Positive<T>)
        requires
            T::fits(self@ + rhs@),
        ensures
            r@ == self@ + rhs@,
    {
        proof {
            use_type_invariant(&self);
            use_type_invariant(&rhs);
        }
        Positive { value: self.value.add(rhs.value) }
    }

    /// Subtraction back into the bare scalar: the difference of two
    /// positive values may be zero or negative.
    pub fn sub(self, rhs: Positive<T>) -> (r: T)
        requires
            T::fits(self@ - rhs@),
        ensures
            r.as_int() == self@ - rhs@,
    {
        self.value.sub(rhs.value)
    }

    /// Product; positive values stay positive.
    pub fn mul(self, rhs: Positive<T>) -> (r: Positive<T>)
        requires
            T::fits(self@ * rhs@),
        ensures
            r@ == self@ * rhs@,
    {
        proof {
            use_type_invariant(&self);
            use_type_invariant(&rhs);
            assert(self@ * rhs@ > 0) by (nonlinear_arith)
                requires
                    self@ > 0,
                    rhs@ > 0,
            ;
        }
        Positive { value: self.value.mul(rhs.value) }
    }

    /// Quotient, with the backend's division. Positivity survives only
    /// when the dividend is at least the divisor, so that is required.
    pub fn div(self, rhs: Positive<T>) -> (r: Positive<T>)
        requires
            self@ >= rhs@,
        ensures
            r@ == div_t(self@, rhs@),
    {
        proof {
            use_type_invariant(&self);
            use_type_invariant(&rhs);
            T::fits_zero();
            T::all_fit(self.value);
            crate::traits::lemma_div_t_fits::<T>(self@, rhs@);
            crate::traits::lemma_div_t_bounds(self@, rhs@);
            vstd::arithmetic::div_mod::lemma_div_non_zero(self@, rhs@);
        }
        Positive { value: self.value.div(rhs.value) }
    }
}

} // verus!
