//! The numeric capability interface the algebra is generic over.
//!
//! Geometry types do not compute on a fixed machine type; they ask their
//! scalar parameter for ring and field operations through the traits below.
//! `Scalar` carries the arithmetic itself, specified against a mathematical
//! model (`Scalar::as_int`); the small single-operation traits (`Sq`, `Sqrt`,
//! `Abs`, ...) mirror the elementary functions a backend may offer.
//! An integer backend (`i64`) is provided and verified here; approximate
//! backends (floating point) live outside the verified core.

use vstd::prelude::*;
use crate::angle::Angle;
use crate::range::RangeInclusive;

verus! {

/// Absolute value on the mathematical integers.
pub open spec fn abs_int(a: int) -> int {
    if a < 0 {
        -a
    } else {
        a
    }
}

/// Division rounding toward zero, the convention of Rust's integer `/`.
pub open spec fn div_t(a: int, b: int) -> int {
    if (a < 0) == (b < 0) {
        abs_int(a) / abs_int(b)
    } else {
        -(abs_int(a) / abs_int(b))
    }
}

/// The arithmetic capabilities every scalar backend must provide.
///
/// `as_int` maps a scalar to its mathematical value; `fits` says which
/// mathematical values the backend can represent. Each operation is exact
/// on the model whenever the result is representable.
pub trait Scalar: Sized + Copy {
    /// The mathematical value this scalar stands for.
    spec fn as_int(self) -> int;

    /// Whether the backend can represent the mathematical value `x`.
    spec fn fits(x: int) -> bool;

    /// Every value a scalar holds is representable.
    proof fn all_fit(x: Self)
        ensures
            Self::fits(x.as_int()),
    ;

    /// Zero is representable.
    proof fn fits_zero()
        ensures
            Self::fits(0),
    ;

    /// Representability is closed under intermediate values.
    proof fn fits_between(a: int, b: int, x: int)
        requires
            Self::fits(a),
            Self::fits(b),
            a <= x <= b,
        ensures
            Self::fits(x),
    ;

    fn add(self, rhs: Self) -> (r: Self)
        requires
            Self::fits(self.as_int() + rhs.as_int()),
        ensures
            r.as_int() == self.as_int() + rhs.as_int(),
    ;

    fn sub(self, rhs: Self) -> (r: Self)
        requires
            Self::fits(self.as_int() - rhs.as_int()),
        ensures
            r.as_int() == self.as_int() - rhs.as_int(),
    ;

    fn mul(self, rhs: Self) -> (r: Self)
        requires
            Self::fits(self.as_int() * rhs.as_int()),
        ensures
            r.as_int() == self.as_int() * rhs.as_int(),
    ;

    fn neg(self) -> (r: Self)
        requires
            Self::fits(-self.as_int()),
        ensures
            r.as_int() == -self.as_int(),
    ;

    /// Division rounding toward zero, after the integer backends; an exact
    /// backend agrees with it whenever the quotient is exact.
    fn div(self, rhs: Self) -> (r: Self)
        requires
            rhs.as_int() != 0,
            Self::fits(div_t(self.as_int(), rhs.as_int())),
        ensures
            r.as_int() == div_t(self.as_int(), rhs.as_int()),
    ;

    fn eq_val(self, rhs: Self) -> (r: bool)
        ensures
            r == (self.as_int() == rhs.as_int()),
    ;

    fn lt(self, rhs: Self) -> (r: bool)
        ensures
            r == (self.as_int() < rhs.as_int()),
    ;

    fn le(self, rhs: Self) -> (r: bool)
        ensures
            r == (self.as_int() <= rhs.as_int()),
    ;
}

/// Dividing by one changes nothing.
pub proof fn lemma_div_t_one(a: int)
    ensures
        div_t(a, 1) == a,
{
    vstd::arithmetic::div_mod::lemma_div_basics(abs_int(a));
}

/// The quotient of a division by a positive scalar lies between zero and
/// the dividend.
pub proof fn lemma_div_t_bounds(a: int, b: int)
    requires
        b >= 1,
    ensures
        a >= 0 ==> 0 <= div_t(a, b) <= a,
        a < 0 ==> a <= div_t(a, b) <= 0,
{
    vstd::arithmetic::div_mod::lemma_div_pos_is_pos(abs_int(a), b);
    vstd::arithmetic::div_mod::lemma_div_nonincreasing(abs_int(a), b);
}

/// A quotient by a positive divisor fits whenever the dividend does.
pub proof fn lemma_div_t_fits<T: Scalar>(a: int, b: int)
    requires
        b >= 1,
        T::fits(a),
        T::fits(0),
    ensures
        T::fits(div_t(a, b)),
{
    lemma_div_t_bounds(a, b);
    if a >= 0 {
        T::fits_between(0, a, div_t(a, b));
    } else {
        T::fits_between(a, 0, div_t(a, b));
    }
}

proof fn lemma_div_neg_divisor(a: int, b: int)
    requires
        b > 0,
    ensures
        a / (-b) == -(a / b),
{
    vstd::arithmetic::div_mod::lemma_fundamental_div_mod(a, b);
    vstd::arithmetic::div_mod::lemma_fundamental_div_mod(a, -b);
    assert(0 <= a % b < b);
    assert(0 <= a % (-b) < b);
    let q1 = a / b;
    let q2 = a / (-b);
    assert(b * q1 + a % b == (-b) * q2 + a % (-b));
    assert(b * q1 + b * q2 == a % (-b) - a % b) by (nonlinear_arith)
        requires
            b * q1 + a % b == (-b) * q2 + a % (-b),
    ;
    assert(q2 == -q1) by (nonlinear_arith)
        requires
            b * q1 + b * q2 == a % (-b) - a % b,
            0 <= a % b < b,
            0 <= a % (-b) < b,
            b > 0,
    ;
}

impl Scalar for i64 {
    open spec fn as_int(self) -> int {
        self as int
    }

    open spec fn fits(x: int) -> bool {
        i64::MIN <= x <= i64::MAX
    }

    proof fn all_fit(x: Self) {
    }

    proof fn fits_zero() {
    }

    proof fn fits_between(a: int, b: int, x: int) {
    }

    fn add(self, rhs: Self) -> (r: Self) {
        self + rhs
    }

    fn sub(self, rhs: Self) -> (r: Self) {
        self - rhs
    }

    fn mul(self, rhs: Self) -> (r: Self) {
        self * rhs
    }

    fn neg(self) -> (r: Self) {
        -self
    }

    fn div(self, rhs: Self) -> (r: Self) {
        proof {
            let a = self as int;
            let b = rhs as int;
            if b < 0 {
                lemma_div_neg_divisor(a, -b);
                lemma_div_neg_divisor(-a, -b);
            }
        }
        self / rhs
    }

    fn eq_val(self, rhs: Self) -> (r: bool) {
        self == rhs
    }

    fn lt(self, rhs: Self) -> (r: bool) {
        self < rhs
    }

    fn le(self, rhs: Self) -> (r: bool) {
        self <= rhs
    }
}

impl Scalar for u32 {
    open spec fn as_int(self) -> int {
        self as int
    }

    open spec fn fits(x: int) -> bool {
        0 <= x <= u32::MAX
    }

    proof fn all_fit(x: Self) {
    }

    proof fn fits_zero() {
    }

    proof fn fits_between(a: int, b: int, x: int) {
    }

    fn add(self, rhs: Self) -> (r: Self) {
        self + rhs
    }

    fn sub(self, rhs: Self) -> (r: Self) {
        self - rhs
    }

    fn mul(self, rhs: Self) -> (r: Self) {
        self * rhs
    }

    fn neg(self) -> (r: Self) {
        self
    }

    fn div(self, rhs: Self) -> (r: Self) {
        self / rhs
    }

    fn eq_val(self, rhs: Self) -> (r: bool) {
        self == rhs
    }

    fn lt(self, rhs: Self) -> (r: bool) {
        self < rhs
    }

    fn le(self, rhs: Self) -> (r: bool) {
        self <= rhs
    }
}

/// Additive identity.
pub trait Zero: Scalar {
    fn zero() -> (r: Self)
        ensures
            r.as_int() == 0,
            Self::fits(0),
    ;
}

impl Zero for i64 {
    fn zero() -> (r: Self) {
        0
    }
}

impl Zero for u32 {
    fn zero() -> (r: Self) {
        0
    }
}

/// Multiplicative identity.
pub trait One: Scalar {
    fn one() -> (r: Self)
        ensures
            r.as_int() == 1,
            Self::fits(1),
    ;
}

impl One for i64 {
    fn one() -> (r: Self) {
        1
    }
}

impl One for u32 {
    fn one() -> (r: Self) {
        1
    }
}

/// The additive inverse of the multiplicative identity.
pub trait MinusOne: Scalar {
    fn minus_one() -> (r: Self)
        ensures
            r.as_int() == -1,
            Self::fits(-1),
    ;
}

impl MinusOne for i64 {
    fn minus_one() -> (r: Self) {
        -1
    }
}

/// The scalar two.
pub trait Two: Scalar {
    fn two() -> (r: Self)
        ensures
            r.as_int() == 2,
            Self::fits(2),
    ;
}

impl Two for i64 {
    fn two() -> (r: Self) {
        2
    }
}

impl Two for u32 {
    fn two() -> (r: Self) {
        2
    }
}

/// Squaring.
pub trait Sq: Scalar {
    fn sq(self) -> (r: Self)
        requires
            Self::fits(self.as_int() * self.as_int()),
        ensures
            r.as_int() == self.as_int() * self.as_int(),
    ;
}

impl Sq for i64 {
    fn sq(self) -> (r: Self) {
        self * self
    }
}

impl Sq for u32 {
    fn sq(self) -> (r: Self) {
        self * self
    }
}

/// Sign-preserving squaring: the square of the magnitude, with the
/// argument's sign.
pub trait SignedSq: Scalar {
    fn ssq(self) -> (r: Self)
        requires
            Self::fits(self.as_int() * self.as_int()),
            Self::fits(-(self.as_int() * self.as_int())),
        ensures
            r.as_int() == if self.as_int() >= 0 {
                self.as_int() * self.as_int()
            } else {
                -(self.as_int() * self.as_int())
            },
    ;
}

impl SignedSq for i64 {
    fn ssq(self) -> (r: Self) {
        if self >= 0 {
            self * self
        } else {
            -(self * self)
        }
    }
}

/// The greatest scalar whose square does not exceed `n`; zero when `n`
/// is not positive.
pub open spec fn sqrt_floor(n: int) -> int
    decreases n,
{
    if n <= 0 {
        0
    } else {
        let r = sqrt_floor(n - 1);
        if (r + 1) * (r + 1) <= n {
            r + 1
        } else {
            r
        }
    }
}

/// `sqrt_floor(n)` squares to at most `n` while its successor squares past `n`.
pub proof fn lemma_sqrt_floor_bounds(n: int)
    requires
        n >= 0,
    ensures
        sqrt_floor(n) >= 0,
        sqrt_floor(n) * sqrt_floor(n) <= n,
        n < (sqrt_floor(n) + 1) * (sqrt_floor(n) + 1),
    decreases n,
{
    if n == 0 {
    } else {
        lemma_sqrt_floor_bounds(n - 1);
        let r = sqrt_floor(n - 1);
        if (r + 1) * (r + 1) <= n {
            assert(n < (r + 2) * (r + 2)) by (nonlinear_arith)
                requires
                    r >= 0,
                    n - 1 < (r + 1) * (r + 1),
                    (r + 1) * (r + 1) <= n,
            ;
        }
    }
}

/// Any scalar meeting the floor-square-root bounds is `sqrt_floor(n)`.
pub proof fn lemma_sqrt_floor_unique(n: int, r: int)
    requires
        r >= 0,
        r * r <= n,
        n < (r + 1) * (r + 1),
    ensures
        r == sqrt_floor(n),
{
    lemma_sqrt_floor_bounds(n);
    let s = sqrt_floor(n);
    assert(r == s) by (nonlinear_arith)
        requires
            r >= 0,
            s >= 0,
            r * r <= n,
            n < (r + 1) * (r + 1),
            s * s <= n,
            n < (s + 1) * (s + 1),
    ;
}

/// Square root, rounded toward zero on integral backends.
pub trait Sqrt: Scalar {
    fn sqrt(self) -> (r: Self)
        requires
            self.as_int() >= 0,
        ensures
            r.as_int() == sqrt_floor(self.as_int()),
    ;
}

impl Sqrt for i64 {
    fn sqrt(self) -> (r: Self) {
        let x: i128 = self as i128;
        let mut r: i128 = 0;
        loop
            invariant
                0 <= r < 0x1_0000_0000,
                r * r <= x,
                r <= x,
                0 <= x <= i64::MAX,
                x == self as int,
            ensures
                0 <= r < 0x1_0000_0000,
                r * r <= x,
                x < (r + 1) * (r + 1),
                x == self as int,
            decreases x - r,
        {
            proof {
                assert((r + 1) * (r + 1) <= 0x1_0000_0000 * 0x1_0000_0000) by (nonlinear_arith)
                    requires
                        0 <= r < 0x1_0000_0000,
                ;
            }
            let next = (r + 1) * (r + 1);
            if next <= x {
                r = r + 1;
                proof {
                    assert(r < 0x1_0000_0000 && r <= x) by (nonlinear_arith)
                        requires
                            r >= 1,
                            r * r <= x,
                            x <= i64::MAX,
                    ;
                }
            } else {
                break;
            }
        }
        proof {
            lemma_sqrt_floor_unique(x as int, r as int);
        }
        r as i64
    }
}

impl Sqrt for u32 {
    fn sqrt(self) -> (r: Self) {
        let x: i64 = self as i64;
        let s = x.sqrt();
        proof {
            lemma_sqrt_floor_bounds(x as int);
            assert(s as int <= x as int) by (nonlinear_arith)
                requires
                    s as int >= 0,
                    (s as int) * (s as int) <= x as int,
            ;
        }
        s as u32
    }
}

/// Sign-preserving square root: the root of the magnitude, with the
/// argument's sign.
pub trait SignedSqrt: Scalar {
    fn ssqrt(self) -> (r: Self)
        requires
            Self::fits(-self.as_int()),
        ensures
            r.as_int() == if self.as_int() >= 0 {
                sqrt_floor(self.as_int())
            } else {
                -sqrt_floor(-self.as_int())
            },
    ;
}

impl SignedSqrt for i64 {
    fn ssqrt(self) -> (r: Self) {
        if self >= 0 {
            self.sqrt()
        } else {
            let m: i64 = -self;
            let s = m.sqrt();
            proof {
                lemma_sqrt_floor_bounds(m as int);
                assert(sqrt_floor(m as int) <= m as int) by (nonlinear_arith)
                    requires
                        sqrt_floor(m as int) >= 0,
                        sqrt_floor(m as int) * sqrt_floor(m as int) <= m as int,
                ;
            }
            -s
        }
    }
}

/// Absolute value.
pub trait Abs: Scalar {
    fn abs(self) -> (r: Self)
        requires
            Self::fits(-self.as_int()),
        ensures
            r.as_int() == abs_int(self.as_int()),
    ;
}

impl Abs for i64 {
    fn abs(self) -> (r: Self) {
        if self < 0 {
            -self
        } else {
            self
        }
    }
}

/// Rounding toward negative infinity. On an integral backend this is the
/// identity; the generic contract only promises what holds of any backend.
pub trait Floor: Scalar {
    fn floor(self) -> (r: Self)
        ensures
            r.as_int() <= self.as_int(),
            self.as_int() >= 0 ==> r.as_int() >= 0,
            self.as_int() >= 1 ==> r.as_int() >= 1,
    ;
}

impl Floor for i64 {
    fn floor(self) -> (r: Self) {
        self
    }
}

impl Floor for u32 {
    fn floor(self) -> (r: Self) {
        self
    }
}

/// Rounding to the nearest representable integral value. Which value that
/// is depends on the backend, so nothing further is promised here.
pub trait Round: Scalar {
    fn round(self) -> Self;
}

impl Round for i64 {
    fn round(self) -> Self {
        self
    }
}

impl Round for u32 {
    fn round(self) -> Self {
        self
    }
}

/// The least non-negative remainder of a division.
pub trait RemEuclid: Scalar {
    fn rem_euclid(self, rhs: Self) -> (r: Self)
        requires
            rhs.as_int() > 0,
        ensures
            r.as_int() == self.as_int() % rhs.as_int(),
    ;
}

impl RemEuclid for i64 {
    fn rem_euclid(self, rhs: Self) -> (r: Self) {
        let r = self % rhs;
        proof {
            lemma_trunc_rem_to_euclid(self as int, rhs as int);
        }
        if r < 0 {
            r + rhs
        } else {
            r
        }
    }
}

/// Relates the truncated remainder computed by the machine to the
/// non-negative euclidean remainder of the model.
proof fn lemma_trunc_rem_to_euclid(a: int, b: int)
    requires
        b > 0,
    ensures
        a >= 0 ==> a % b >= 0,
        a < 0 && (-a) % b == 0 ==> a % b == 0,
        a < 0 && (-a) % b != 0 ==> a % b == b - (-a) % b,
{
    vstd::arithmetic::div_mod::lemma_fundamental_div_mod(a, b);
    vstd::arithmetic::div_mod::lemma_fundamental_div_mod(-a, b);
    if a < 0 {
        let q = (-a) / b;
        let s = (-a) % b;
        assert(0 <= s < b);
        if s == 0 {
            assert(a == (-q) * b + 0) by (nonlinear_arith)
                requires
                    -a == b * q + s,
                    s == 0,
            ;
            vstd::arithmetic::div_mod::lemma_fundamental_div_mod_converse_mod(a, b, -q, 0);
        } else {
            assert(a == (-q - 1) * b + (b - s)) by (nonlinear_arith)
                requires
                    -a == b * q + s,
            ;
            vstd::arithmetic::div_mod::lemma_fundamental_div_mod_converse_mod(a, b, -q - 1, b - s);
        }
    }
}

/// Restricting a scalar to a closed range.
pub trait Clamp: Scalar {
    fn clamp(self, range: RangeInclusive<Self>) -> (r: Self)
        requires
            range.start.as_int() <= range.end.as_int(),
        ensures
            r.as_int() == if self.as_int() < range.start.as_int() {
                range.start.as_int()
            } else if self.as_int() > range.end.as_int() {
                range.end.as_int()
            } else {
                self.as_int()
            },
    ;
}

impl Clamp for i64 {
    fn clamp(self, range: RangeInclusive<Self>) -> (r: Self) {
        if self < range.start {
            range.start
        } else if self > range.end {
            range.end
        } else {
            self
        }
    }
}

impl Clamp for u32 {
    fn clamp(self, range: RangeInclusive<Self>) -> (r: Self) {
        if self < range.start {
            range.start
        } else if self > range.end {
            range.end
        } else {
            self
        }
    }
}

/// Whether a scalar is strictly negative.
pub trait IsNeg: Scalar {
    fn is_neg(&self) -> (r: bool)
        ensures
            r == (self.as_int() < 0),
    ;
}

impl IsNeg for i64 {
    fn is_neg(&self) -> (r: bool) {
        *self < 0
    }
}

impl IsNeg for u32 {
    fn is_neg(&self) -> (r: bool) {
        false
    }
}

/// Whether a scalar is strictly positive.
pub trait IsPositive: Scalar {
    fn is_positive(&self) -> (r: bool)
        ensures
            r == (self.as_int() > 0),
    ;
}

impl IsPositive for i64 {
    fn is_positive(&self) -> (r: bool) {
        *self > 0
    }
}

impl IsPositive for u32 {
    fn is_positive(&self) -> (r: bool) {
        *self > 0
    }
}

/// Cosine. An exact statement needs real arithmetic, so the interface
/// promises only that the result has at most unit magnitude; approximate
/// backends implement it outside the verified core.
pub trait Cos: Scalar {
    fn cos(self) -> (r: Self)
        ensures
            -1 <= r.as_int() <= 1,
    ;
}

/// Sine. See [`Cos`].
pub trait Sin: Scalar {
    fn sin(self) -> (r: Self)
        ensures
            -1 <= r.as_int() <= 1,
    ;
}

/// Four-quadrant arctangent, `self` being the ordinate. See [`Cos`].
pub trait Atan2: Scalar {
    fn atan2(self, rhs: Self) -> Angle<Self>;
}

/// The circle constant. Irrational, so no integral backend offers it.
pub trait Pi: Scalar {
    fn pi() -> Self;
}

/// Radians to degrees. See [`Cos`].
pub trait RadToDeg: Scalar {
    fn rad_to_deg(self) -> Self;
}

/// Degrees to radians. See [`Cos`].
pub trait DegToRad: Scalar {
    fn deg_to_rad(self) -> Self;
}

} // verus!
