//! Range remapping and related scalar utilities.

use vstd::prelude::*;
use crate::range::{Range, RangeInclusive};
use crate::traits::{div_t, Clamp, IsNeg, MinusOne, One, Scalar};

verus! {

/// The value of linear range remapping on the model: `x`, read as a
/// position in `[is, ie)`, carried to the proportional position in
/// `[os, oe)`, with the backend's division.
pub open spec fn map_range_spec(x: int, is_: int, ie: int, os: int, oe: int) -> int {
    div_t((x - is_) * (oe - os), ie - is_) + os
}

/// Whether the backend can hold every intermediate value of
/// `map_range_spec(x, is_, ie, os, oe)`.
pub open spec fn map_range_fits<T: Scalar>(x: int, is_: int, ie: int, os: int, oe: int) -> bool {
    &&& T::fits(x - is_)
    &&& T::fits(oe - os)
    &&& T::fits((x - is_) * (oe - os))
    &&& T::fits(ie - is_)
    &&& T::fits(div_t((x - is_) * (oe - os), ie - is_))
    &&& T::fits(map_range_spec(x, is_, ie, os, oe))
}

/// Carries `x` from the `input` range to the proportional position in the
/// `output` range, without checking that `x` lies inside `input`.
pub fn map_into_range<T: Scalar>(x: T, input: Range<T>, output: Range<T>) -> (r: T)
    requires
        input.end.as_int() != input.start.as_int(),
        map_range_fits::<T>(
            x.as_int(),
            input.start.as_int(),
            input.end.as_int(),
            output.start.as_int(),
            output.end.as_int(),
        ),
    ensures
        r.as_int() == map_range_spec(
            x.as_int(),
            input.start.as_int(),
            input.end.as_int(),
            output.start.as_int(),
            output.end.as_int(),
        ),
{
    x.sub(input.start).mul(output.end.sub(output.start)).div(input.end.sub(input.start)).add(
        output.start,
    )
}

/// The remap rejected an input outside its range; carries the rejected
/// value and both ranges.
#[derive(Debug, Clone, Copy)]
pub struct FitIntoRangeError<T> {
    pub x: T,
    pub input: Range<T>,
    pub output: Range<T>,
}

/// Like [`map_into_range`], but only for `x` inside `input`: any other
/// `x` comes back in the error, untouched.
pub fn fit_into_range<T: Scalar>(x: T, input: Range<T>, output: Range<T>) -> (r: Result<
    T,
    FitIntoRangeError<T>,
>)
    requires
        input.start.as_int() <= x.as_int() < input.end.as_int() ==> input.end.as_int()
            != input.start.as_int() && map_range_fits::<T>(
            x.as_int(),
            input.start.as_int(),
            input.end.as_int(),
            output.start.as_int(),
            output.end.as_int(),
        ),
    ensures
        r is Ok <==> input.start.as_int() <= x.as_int() < input.end.as_int(),
        r matches Ok(v) ==> v.as_int() == map_range_spec(
            x.as_int(),
            input.start.as_int(),
            input.end.as_int(),
            output.start.as_int(),
            output.end.as_int(),
        ),
        r matches Err(e) ==> e.x == x && e.input == input && e.output == output,
{
    if input.contains(&x) {
        Ok(map_into_range(x, input, output))
    } else {
        Err(FitIntoRangeError { x, input, output })
    }
}

/// Carries `x` from the closed `input` range to the proportional position
/// in the closed `output` range, without checking that `x` lies inside.
pub fn map_into_range_inclusive<T: Scalar>(
    x: T,
    input: RangeInclusive<T>,
    output: RangeInclusive<T>,
) -> (r: T)
    requires
        input.end.as_int() != input.start.as_int(),
        map_range_fits::<T>(
            x.as_int(),
            input.start.as_int(),
            input.end.as_int(),
            output.start.as_int(),
            output.end.as_int(),
        ),
    ensures
        r.as_int() == map_range_spec(
            x.as_int(),
            input.start.as_int(),
            input.end.as_int(),
            output.start.as_int(),
            output.end.as_int(),
        ),
{
    x.sub(input.start).mul(output.end.sub(output.start)).div(input.end.sub(input.start)).add(
        output.start,
    )
}

/// The closed-range remap rejected an input outside its range.
#[derive(Debug, Clone, Copy)]
pub struct FitIntoRangeInclusiveError<T> {
    pub x: T,
    pub input: RangeInclusive<T>,
    pub output: RangeInclusive<T>,
}

/// Like [`map_into_range_inclusive`], but only for `x` inside `input`:
/// any other `x` comes back in the error, untouched.
pub fn fit_into_range_inclusive<T: Scalar>(
    x: T,
    input: RangeInclusive<T>,
    output: RangeInclusive<T>,
) -> (r: Result<T, FitIntoRangeInclusiveError<T>>)
    requires
        input.start.as_int() <= x.as_int() <= input.end.as_int() ==> input.end.as_int()
            != input.start.as_int() && map_range_fits::<T>(
            x.as_int(),
            input.start.as_int(),
            input.end.as_int(),
            output.start.as_int(),
            output.end.as_int(),
        ),
    ensures
        r is Ok <==> input.start.as_int() <= x.as_int() <= input.end.as_int(),
        r matches Ok(v) ==> v.as_int() == map_range_spec(
            x.as_int(),
            input.start.as_int(),
            input.end.as_int(),
            output.start.as_int(),
            output.end.as_int(),
        ),
        r matches Err(e) ==> e.x == x && e.input == input && e.output == output,
{
    if input.contains(&x) {
        Ok(map_into_range_inclusive(x, input, output))
    } else {
        Err(FitIntoRangeInclusiveError { x, input, output })
    }
}

/// What a scalar clamped to `[lo, hi]` is on the model.
pub open spec fn clamp_spec(x: int, lo: int, hi: int) -> int {
    if x < lo {
        lo
    } else if x > hi {
        hi
    } else {
        x
    }
}

/// Clamps `x` into the closed `input` range, then carries it to the
/// proportional position in the closed `output` range.
pub fn clamp_into_range<T: Scalar + Clamp>(
    x: T,
    input: RangeInclusive<T>,
    output: RangeInclusive<T>,
) -> (r: T)
    requires
        input.start.as_int() < input.end.as_int(),
        map_range_fits::<T>(
            clamp_spec(x.as_int(), input.start.as_int(), input.end.as_int()),
            input.start.as_int(),
            input.end.as_int(),
            output.start.as_int(),
            output.end.as_int(),
        ),
    ensures
        r.as_int() == map_range_spec(
            clamp_spec(x.as_int(), input.start.as_int(), input.end.as_int()),
            input.start.as_int(),
            input.end.as_int(),
            output.start.as_int(),
            output.end.as_int(),
        ),
{
    x.clamp(input).sub(input.start).mul(output.end.sub(output.start)).div(
        input.end.sub(input.start),
    ).add(output.start)
}

/// The sign of a scalar: one for non-negative values, minus one below
/// zero.
pub fn sign<T: Scalar + One + MinusOne + IsNeg>(v: T) -> (r: T)
    ensures
        r.as_int() == if v.as_int() >= 0 {
            1int
        } else {
            -1int
        },
{
    if v.is_neg() {
        T::minus_one()
    } else {
        T::one()
    }
}

} // verus!
