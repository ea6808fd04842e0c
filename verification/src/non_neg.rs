//! A scalar statically known not to be negative.

use vstd::prelude::*;
use crate::traits::{abs_int, div_t, sqrt_floor, Abs, Floor, IsNeg, Scalar, Sqrt, Zero};

verus! {

/// Cannot store negative numbers: construction rejects them and every
/// operation keeps the stored value at least zero.
#[derive(Copy, Debug)]
pub struct NonNeg<T: Scalar> {
    pub(crate) value: T,
}

impl<T: Scalar> Clone for NonNeg<T> {
    fn clone(&self) -> (r: Self)
        ensures
            r == *self,
    {
        *self
    }
}

impl<T: Scalar> View for NonNeg<T> {
    type V = int;

    closed spec fn view(&self) -> int {
        self.value.as_int()
    }
}

impl<T: Scalar> NonNeg<T> {
    #[verifier::type_invariant]
    pub(crate) open spec fn inv(self) -> bool {
        self.value.as_int() >= 0
    }
}

/// A rejected construction: the offered value was negative. It is carried
/// along so the caller can recover it.
#[derive(Debug, Clone, Copy)]
pub struct NegError<T> {
    pub(crate) original_value: T,
}

impl<T: Scalar> View for NegError<T> {
    type V = int;

    closed spec fn view(&self) -> int {
        self.original_value.as_int()
    }
}

impl<T: Scalar> NegError<T> {
    /// The value whose construction was rejected.
    pub fn original_value(self) -> (r: T)
        ensures
            r.as_int() == self@,
    {
        self.original_value
    }
}

impl<T: Scalar> NonNeg<T> {
    /// Accepts exactly the values that are not negative; a negative value
    /// comes back in the error.
    pub fn new(value: T) -> (r: Result<Self, NegError<T>>) where T: IsNeg
        ensures
            value.as_int() >= 0 <==> r is Ok,
            r matches Ok(n) ==> n@ == value.as_int(),
            r matches Err(e) ==> e@ == value.as_int(),
    {
        if value.is_neg() {
            Err(NegError { original_value: value })
        } else {
            Ok(NonNeg { value })
        }
    }

    /// The stored value; never negative.
    pub fn into_inner(self) -> (r: T)
        ensures
            r.as_int() == self@,
            self@ >= 0,
    {
        proof {
            use_type_invariant(&self);
        }
        self.value
    }

    /// The stored value; never negative. Kept beside
    /// [`NonNeg::into_inner`] for callers of the older name.
    pub fn unwrap(self) -> (r: T)
        ensures
            r.as_int() == self@,
            self@ >= 0,
    {
        self.into_inner()
    }

    /// The square root; stays non-negative.
    pub fn sqrt(self) -> (r: NonNeg<T>) where T: Sqrt
        ensures
            r@ == sqrt_floor(self@),
    {
        proof {
            use_type_invariant(&self);
            crate::traits::lemma_sqrt_floor_bounds(self@);
        }
        NonNeg { value: self.value.sqrt() }
    }

    /// Rounding down; stays non-negative, and never grows.
    pub fn floor(self) -> (r: NonNeg<T>) where T: Floor
        ensures
            0 <= r@ <= self@,
    {
        proof {
            use_type_invariant(&self);
        }
        NonNeg { value: self.value.floor() }
    }

    /// Subtraction that stops at zero instead of going negative.
    pub fn limited_sub(self, rhs: NonNeg<T>) -> (r: NonNeg<T>) where T: IsNeg + Zero
        requires
            T::fits(self@ - rhs@),
        ensures
            r@ == if self@ >= rhs@ {
                self@ - rhs@
            } else {
                0int
            },
    {
        proof {
            use_type_invariant(&self);
            use_type_invariant(&rhs);
        }
        match NonNeg::new(self.value.sub(rhs.value)) {
            Ok(n) => n,
            Err(_) => NonNeg { value: T::zero() },
        }
    }

    /// Subtracts in place when the result stays non-negative; otherwise
    /// leaves the value alone and hands the subtrahend back.
    pub fn sub_assign(&mut self, rhs: Self) -> (r: Result<(), Self>)
        ensures
            old(self)@ >= rhs@ ==> final(self)@ == old(self)@ - rhs@ && r is Ok,
            old(self)@ < rhs@ ==> *final(self) == *old(self) && r == Err::<(), Self>(rhs),
    {
        proof {
            use_type_invariant(&*self);
            use_type_invariant(&rhs);
        }
        if rhs.value.le(self.value) {
            proof {
                T::all_fit(self.value);
                T::fits_zero();
                T::fits_between(0, self.value.as_int(), self.value.as_int() - rhs.value.as_int());
            }
            self.value = self.value.sub(rhs.value);
            Ok(())
        } else {
            Err(rhs)
        }
    }

    /// Componentwise sum; non-negative values stay non-negative.
    pub fn add(self, rhs: NonNeg<T>) -> (r: NonNeg<T>)
        requires
            T::fits(self@ + rhs@),
        ensures
            r@ == self@ + rhs@,
    {
        proof {
            use_type_invariant(&self);
            use_type_invariant(&rhs);
        }
        NonNeg { value: self.value.add(rhs.value) }
    }

    /// Subtraction back into the bare scalar: the difference of two
    /// non-negative values may be negative.
    pub fn sub(self, rhs: NonNeg<T>) -> (r: T)
        requires
            T::fits(self@ - rhs@),
        ensures
            r.as_int() == self@ - rhs@,
    {
        self.value.sub(rhs.value)
    }

    /// Product; non-negative values stay non-negative.
    pub fn mul(self, rhs: NonNeg<T>) -> (r: NonNeg<T>)
        requires
            T::fits(self@ * rhs@),
        ensures
            r@ == self@ * rhs@,
    {
        proof {
            use_type_invariant(&self);
            use_type_invariant(&rhs);
            assert(self@ * rhs@ >= 0) by (nonlinear_arith)
                requires
                    self@ >= 0,
                    rhs@ >= 0,
            ;
        }
        NonNeg { value: self.value.mul(rhs.value) }
    }

    /// Quotient, with the backend's division; stays non-negative. The
    /// divisor must not hold zero.
    pub fn div(self, rhs: NonNeg<T>) -> (r: NonNeg<T>)
        requires
            rhs@ != 0,
        ensures
            r@ == div_t(self@, rhs@),
    {
        proof {
            use_type_invariant(&self);
            use_type_invariant(&rhs);
            T::fits_zero();
            T::all_fit(self.value);
            crate::traits::lemma_div_t_fits::<T>(self@, rhs@);
            crate::traits::lemma_div_t_bounds(self@, rhs@);
        }
        NonNeg { value: self.value.div(rhs.value) }
    }
}

impl<T: Scalar + Zero> Default for NonNeg<T> {
    /// The non-negative zero.
    fn default() -> (r: Self)
        ensures
            r@ == 0,
    {
        NonNeg { value: T::zero() }
    }
}

impl<T: Scalar> From<crate::positive::Positive<T>> for NonNeg<T> {
    /// A strictly positive value is in particular non-negative.
    fn from(value: crate::positive::Positive<T>) -> (r: Self) {
        proof {
            use_type_invariant(&value);
        }
        NonNeg { value: value.value }
    }
}

impl<T: Scalar> vstd::std_specs::convert::FromSpecImpl<crate::positive::Positive<T>> for NonNeg<T> {
    open spec fn obeys_from_spec() -> bool {
        true
    }

    closed spec fn from_spec(value: crate::positive::Positive<T>) -> Self {
        NonNeg { value: value.value }
    }
}

impl From<u32> for NonNeg<i64> {
    /// Every unsigned 32-bit value fits the signed backend non-negatively.
    fn from(value: u32) -> (r: Self) {
        NonNeg { value: value as i64 }
    }
}

impl vstd::std_specs::convert::FromSpecImpl<u32> for NonNeg<i64> {
    open spec fn obeys_from_spec() -> bool {
        true
    }

    closed spec fn from_spec(value: u32) -> Self {
        NonNeg { value: value as i64 }
    }
}

/// Taking a magnitude lands in the non-negative scalars by construction.
pub trait AbsAsNonNeg: Scalar {
    fn abs_as_non_neg(self) -> (r: NonNeg<Self>)
        requires
            Self::fits(-self.as_int()),
        ensures
            r@ == abs_int(self.as_int()),
    ;
}

impl<T: Abs> AbsAsNonNeg for T {
    fn abs_as_non_neg(self) -> (r: NonNeg<Self>) {
        NonNeg { value: self.abs() }
    }
}

} // verus!
