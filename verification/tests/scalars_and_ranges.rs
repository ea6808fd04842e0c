use geom2d::range::{Range, RangeInclusive};
use geom2d::Angle;
use geom2d::{
    clamp_into_range, fit_into_range, fit_into_range_inclusive, lerp2, map_into_range,
    map_into_range_inclusive, sign, Abs, Clamp, Floor, LerpIntegrator, MinusOne, One, RemEuclid,
    Round, Scalar, SignedSq, SignedSqrt, Sq, Sqrt, Two, Vector, Zero,
};

#[test]
fn integer_backend_ring_operations() {
    assert_eq!(Scalar::add(6i64, 7), 13);
    assert_eq!(Scalar::sub(6i64, 7), -1);
    assert_eq!(Scalar::mul(6i64, 7), 42);
    assert_eq!(Scalar::neg(6i64), -6);
    assert_eq!(i64::zero(), 0);
    assert_eq!(i64::one(), 1);
    assert_eq!(i64::minus_one(), -1);
    assert_eq!(i64::two(), 2);
}

#[test]
fn integer_division_truncates_toward_zero() {
    assert_eq!(Scalar::div(7i64, 2), 3);
    assert_eq!(Scalar::div(-7i64, 2), -3);
    assert_eq!(Scalar::div(7i64, -2), -3);
    assert_eq!(Scalar::div(-7i64, -2), 3);
}

#[test]
fn integer_comparisons() {
    assert!(Scalar::lt(3i64, 4));
    assert!(!Scalar::lt(4i64, 4));
    assert!(Scalar::le(4i64, 4));
    assert!(3i64.eq_val(3));
    assert!(!3i64.eq_val(4));
}

#[test]
fn squares_and_roots() {
    assert_eq!(9i64.sq(), 81);
    assert_eq!((-9i64).sq(), 81);
    assert_eq!((-9i64).ssq(), -81);
    assert_eq!(81i64.sqrt(), 9);
    assert_eq!(80i64.sqrt(), 8);
    assert_eq!(0i64.sqrt(), 0);
    assert_eq!((-81i64).ssqrt(), -9);
    assert_eq!(50i64.ssqrt(), 7);
}

#[test]
fn abs_floor_round_rem() {
    assert_eq!(Abs::abs(-5i64), 5);
    assert_eq!(Abs::abs(5i64), 5);
    assert_eq!(Floor::floor(-5i64), -5);
    assert_eq!(Round::round(5i64), 5);
    assert_eq!(RemEuclid::rem_euclid(7i64, 3), 1);
    assert_eq!(RemEuclid::rem_euclid(-7i64, 3), 2);
    assert_eq!(RemEuclid::rem_euclid(-9i64, 3), 0);
}

#[test]
fn clamping_into_a_closed_range() {
    let r = RangeInclusive { start: -2i64, end: 5 };
    assert_eq!(Clamp::clamp(-4i64, r), -2);
    assert_eq!(Clamp::clamp(7i64, r), 5);
    assert_eq!(Clamp::clamp(3i64, r), 3);
}

#[test]
fn range_membership() {
    let r = Range { start: 0i64, end: 10 };
    assert!(r.contains(&0));
    assert!(r.contains(&9));
    assert!(!r.contains(&10));
    assert!(!r.contains(&-1));
    assert!(r.is_valid());
    assert!(!r.is_empty());
    assert!(Range { start: 3i64, end: 3 }.is_empty());
    let ri = RangeInclusive { start: 0i64, end: 10 };
    assert!(ri.contains(&10));
    assert!(!ri.contains(&11));
    assert!(ri.is_valid());
}

#[test]
fn remapping_between_ranges() {
    let input = Range { start: 0i64, end: 10 };
    let output = Range { start: 0i64, end: 100 };
    assert_eq!(map_into_range(5, input, output), 50);
    assert_eq!(map_into_range(10, input, output), 100);
    let shifted = map_into_range(
        3,
        Range { start: 2i64, end: 6 },
        Range { start: 10i64, end: 18 },
    );
    assert_eq!(shifted, 12);
}

#[test]
fn fitting_rejects_out_of_range_inputs() {
    let input = Range { start: 0i64, end: 10 };
    let output = Range { start: 0i64, end: 100 };
    assert_eq!(fit_into_range(5, input, output).unwrap(), 50);
    let err = fit_into_range(10, input, output).unwrap_err();
    assert_eq!(err.x, 10);
    assert_eq!(err.input, input);
    assert_eq!(err.output, output);
}

#[test]
fn inclusive_remapping_accepts_the_upper_bound() {
    let input = RangeInclusive { start: 0i64, end: 10 };
    let output = RangeInclusive { start: 0i64, end: 100 };
    assert_eq!(map_into_range_inclusive(10, input, output), 100);
    assert_eq!(fit_into_range_inclusive(10, input, output).unwrap(), 100);
    let err = fit_into_range_inclusive(11, input, output).unwrap_err();
    assert_eq!(err.x, 11);
}

#[test]
fn clamped_remapping_never_leaves_the_output_range() {
    let input = RangeInclusive { start: 0i64, end: 10 };
    let output = RangeInclusive { start: 0i64, end: 100 };
    assert_eq!(clamp_into_range(-5, input, output), 0);
    assert_eq!(clamp_into_range(15, input, output), 100);
    assert_eq!(clamp_into_range(5, input, output), 50);
}

#[test]
fn unsigned_backend_works_too() {
    assert_eq!(Scalar::add(6u32, 7), 13);
    assert_eq!(Scalar::sub(7u32, 6), 1);
    assert_eq!(Scalar::div(7u32, 2), 3);
    assert_eq!(Sqrt::sqrt(17u32), 4);
    assert_eq!(u32::zero(), 0);
    assert_eq!(u32::one(), 1);
    let v = Vector { x: 3u32, y: 4 };
    assert_eq!(v.len(), 5);
    assert_eq!(v.dot(Vector { x: 1, y: 2 }), 11);
}

#[test]
fn angle_stores_radians() {
    let a = Angle::from_radians(3i64);
    assert_eq!(a.radians(), 3);
}

#[test]
fn sign_of_a_scalar() {
    assert_eq!(sign(5i64), 1);
    assert_eq!(sign(0i64), 1);
    assert_eq!(sign(-5i64), -1);
}

#[test]
fn scalar_weighted_interpolation() {
    let a = Vector { x: 0i64, y: 100 };
    let b = Vector { x: 10i64, y: 0 };
    assert_eq!(lerp2(a, b, 0), a);
    assert_eq!(lerp2(a, b, 1), b);
}

#[test]
fn integrator_keeps_a_running_state() {
    // weight one: each step replaces the state with the incoming value
    let mut follow = LerpIntegrator::new(1i64);
    assert_eq!(follow.proceed(Vector { x: 4, y: 4 }), Vector { x: 4, y: 4 });
    assert_eq!(follow.proceed(Vector { x: 8, y: 0 }), Vector { x: 8, y: 0 });
    // weight zero: the first value sticks
    let mut hold = LerpIntegrator::new(0i64);
    assert_eq!(hold.proceed(Vector { x: 4, y: 4 }), Vector { x: 4, y: 4 });
    assert_eq!(hold.proceed(Vector { x: 8, y: 0 }), Vector { x: 4, y: 4 });
}
