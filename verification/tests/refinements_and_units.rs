use geom2d::physics::{Kg, KgPerM3, M3};
use geom2d::{NonNeg, Positive, Rational};

#[test]
fn non_neg_accepts_exactly_the_non_negative() {
    assert_eq!(NonNeg::new(0i64).unwrap().into_inner(), 0);
    assert_eq!(NonNeg::new(17i64).unwrap().into_inner(), 17);
    let err = NonNeg::new(-1i64).unwrap_err();
    assert_eq!(err.original_value(), -1);
}

#[test]
fn limited_sub() {
    let one = NonNeg::new(2i64).unwrap();
    let half = NonNeg::new(1i64).unwrap();
    assert_eq!(half.limited_sub(one).into_inner(), 0);
    assert_eq!(one.limited_sub(half).into_inner(), 1);
}

#[test]
fn non_neg_sub_assign_refuses_to_go_negative() {
    let mut n = NonNeg::new(5i64).unwrap();
    assert!(n.sub_assign(NonNeg::new(3i64).unwrap()).is_ok());
    assert_eq!(n.into_inner(), 2);
    let rejected = n.sub_assign(NonNeg::new(3i64).unwrap()).unwrap_err();
    assert_eq!(rejected.into_inner(), 3);
    assert_eq!(n.into_inner(), 2);
}

#[test]
fn non_neg_arithmetic() {
    let a = NonNeg::new(6i64).unwrap();
    let b = NonNeg::new(4i64).unwrap();
    assert_eq!(a.add(b).into_inner(), 10);
    assert_eq!(a.mul(b).into_inner(), 24);
    assert_eq!(a.div(b).into_inner(), 1);
    assert_eq!(b.sub(a), -2);
    assert_eq!(NonNeg::new(25i64).unwrap().sqrt().into_inner(), 5);
    assert_eq!(NonNeg::new(7i64).unwrap().floor().into_inner(), 7);
    assert_eq!(NonNeg::<i64>::default().into_inner(), 0);
}

#[test]
fn conversions_into_non_neg() {
    let p = Positive::new(7i64).unwrap();
    let n: NonNeg<i64> = NonNeg::from(p);
    assert_eq!(n.into_inner(), 7);
    let m: NonNeg<i64> = NonNeg::from(9u32);
    assert_eq!(m.into_inner(), 9);
}

#[test]
fn positive_rejects_zero_and_below() {
    assert_eq!(Positive::new(3i64).unwrap().into_inner(), 3);
    assert_eq!(Positive::new(0i64).unwrap_err().original_value(), 0);
    assert_eq!(Positive::new(-2i64).unwrap_err().original_value(), -2);
}

#[test]
fn positive_arithmetic() {
    let a = Positive::new(6i64).unwrap();
    let b = Positive::new(4i64).unwrap();
    assert_eq!(a.add(b).into_inner(), 10);
    assert_eq!(a.mul(b).into_inner(), 24);
    assert_eq!(a.div(b).into_inner(), 1);
    assert_eq!(b.sub(a), -2);
    assert_eq!(Positive::new(26i64).unwrap().sqrt().into_inner(), 5);
    assert_eq!(Positive::new(7i64).unwrap().floor().into_inner(), 7);
}

#[test]
fn positive_sub_assign_requires_a_strictly_smaller_subtrahend() {
    let mut p = Positive::new(5i64).unwrap();
    assert!(p.sub_assign(Positive::new(4i64).unwrap()).is_ok());
    assert_eq!(p.into_inner(), 1);
    let rejected = p.sub_assign(Positive::new(1i64).unwrap()).unwrap_err();
    assert_eq!(rejected.into_inner(), 1);
    assert_eq!(p.into_inner(), 1);
}

#[test]
fn density_keeps_the_exact_ratio() {
    let d: KgPerM3<i64> = Kg(2).div(M3(4));
    assert_eq!(d.0.num, Kg(2));
    assert_eq!(d.0.den, M3(4));
    assert_eq!(d.0, Rational::new(Kg(2), M3(4)));
}

#[test]
fn volumes_form_a_scalable_quantity() {
    assert_eq!(M3(3i64).add(M3(4)), M3(7));
    assert_eq!(M3(9i64).sub(M3(4)), M3(5));
    assert_eq!(M3(3i64).mul(5), M3(15));
}
