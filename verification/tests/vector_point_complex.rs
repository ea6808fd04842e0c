use geom2d::{AbsAsNonNeg, Complex, Point, Vector};

#[test]
fn tuple_conversions_build_the_types() {
    let v: Vector<i64> = (3i64, 4i64).into();
    assert_eq!(v, Vector { x: 3, y: 4 });
    let p: Point<i64> = (3i64, 4i64).into();
    assert_eq!(p, Point { x: 3, y: 4 });
    let z: Complex<i64> = (0i64, 1i64).into();
    assert_eq!(*z.real_part(), 0);
    assert_eq!(*z.imag(), 1);
}

#[test]
fn rotor_on_the_left_rotates_too() {
    let v = Vector { x: 1i64, y: 0 };
    let quarter = Complex::from_cartesian(0i64, 1);
    assert_eq!(quarter.mul_vec(v), v.rotate(quarter));
}

#[test]
fn pythagorean_length_is_exact() {
    let v = Vector { x: 3i64, y: 4 };
    assert_eq!(v.len(), 5);
}

#[test]
fn length_squared_skips_the_root() {
    let v = Vector { x: 3i64, y: 4 };
    assert_eq!(v.len_sqr(), 25);
}

#[test]
fn manhattan_length_sums_magnitudes() {
    let v = Vector { x: -3i64, y: 4 };
    assert_eq!(v.manhattan_len(), 7);
}

#[test]
fn vector_arithmetic_is_componentwise() {
    let a = Vector { x: 1i64, y: 2 };
    let b = Vector { x: 10i64, y: -20 };
    assert_eq!(a.add(b), Vector { x: 11, y: -18 });
    assert_eq!(a.sub(b), Vector { x: -9, y: 22 });
    assert_eq!(a.mul(3), Vector { x: 3, y: 6 });
    assert_eq!(Vector { x: 9i64, y: -8 }.div(2), Vector { x: 4, y: -4 });
}

#[test]
fn dot_and_cross_products() {
    let a = Vector { x: 2i64, y: 3 };
    let b = Vector { x: 4i64, y: -5 };
    assert_eq!(a.dot(b), 2 * 4 + 3 * (-5));
    assert_eq!(a.cross(b), 2 * (-5) - 3 * 4);
}

#[test]
fn norm_divides_by_the_length() {
    let v = Vector { x: 3i64, y: 4 };
    assert_eq!(v.norm(), Vector { x: 0, y: 0 });
    let w = Vector { x: 5i64, y: 0 };
    assert_eq!(w.norm(), Vector { x: 1, y: 0 });
    let r = w.rotor();
    assert_eq!(*r.real_part(), 1);
    assert_eq!(*r.imag(), 0);
}

#[test]
fn rotor_quarter_turn_rotates_a_vector() {
    let v = Vector { x: 1i64, y: 0 };
    let quarter = Complex::from_cartesian(0i64, 1);
    assert_eq!(v.rotate(quarter), Vector { x: 0, y: 1 });
    assert_eq!(v.rotate(quarter).rotate(quarter), Vector { x: -1, y: 0 });
}

#[test]
fn rotating_by_a_rotor_and_its_inverse_round_trips() {
    let v = Vector { x: 3i64, y: 4 };
    for rotor in [
        Complex::from_cartesian(0i64, 1),
        Complex::from_cartesian(0i64, -1),
        Complex::from_cartesian(-1i64, 0),
        Complex::from_cartesian(1i64, 0),
    ] {
        let inverse = rotor.invert();
        assert_eq!(v.rotate(rotor).rotate(inverse), v);
    }
}

#[test]
fn complex_product_composes_quarter_turns() {
    let quarter = Complex::from_cartesian(0i64, 1);
    let half = quarter.mul(quarter);
    assert_eq!(*half.real_part(), -1);
    assert_eq!(*half.imag(), 0);
    let sum = quarter.add(half);
    assert_eq!(*sum.real_part(), -1);
    assert_eq!(*sum.imag(), 1);
}

#[test]
fn complex_division_of_vectors_finds_the_rotation() {
    // the rotor that takes (0, 2) to (2, 0) is a quarter turn clockwise
    let z = Complex::div(Vector { x: 2i64, y: 0 }, Vector { x: 0i64, y: 2 });
    assert_eq!(*z.real_part(), 0);
    assert_eq!(*z.imag(), -1);
}

#[test]
fn complex_invert_conjugates_a_unit_rotor() {
    let z = Complex::from_cartesian(0i64, 1).invert();
    assert_eq!(*z.real_part(), 0);
    assert_eq!(*z.imag(), -1);
}

#[test]
fn into_cartesian_reads_the_components() {
    let p = Complex::from_cartesian(8i64, -2).into_cartesian();
    assert_eq!(p, Point { x: 8, y: -2 });
}

#[test]
fn point_difference_then_translation_round_trips() {
    let p = Point { x: 12i64, y: -7 };
    let q = Point { x: -3i64, y: 44 };
    assert_eq!(q.add(p.sub(q)), p);
    assert_eq!(p.add(q.sub(p)), q);
}

#[test]
fn origin_relative_absolute() {
    let origin = Point { x: 10i64, y: 10 };
    let p = Point { x: 13i64, y: 9 };
    let rel = p.relative(origin);
    assert_eq!(rel, Point { x: 3, y: -1 });
    assert_eq!(rel.absolute(origin), p);
    assert_eq!(Point::<i64>::origin(), Point { x: 0, y: 0 });
}

#[test]
fn distance_is_the_euclidean_metric() {
    let p = Point { x: 1i64, y: 2 };
    let q = Point { x: 4i64, y: 6 };
    assert_eq!(p.distance(q), 5);
    assert_eq!(q.distance(p), 5);
}

#[test]
fn rotated_turns_about_the_pivot() {
    let center = Point { x: 1i64, y: 1 };
    let p = Point { x: 2i64, y: 1 };
    let quarter = Complex::from_cartesian(0i64, 1);
    assert_eq!(p.rotated(center, quarter), Point { x: 1, y: 2 });
}

#[test]
fn sub_vector_moves_against_the_displacement() {
    let p = Point { x: 5i64, y: 5 };
    assert_eq!(p.sub_vector(Vector { x: 2, y: -1 }), Point { x: 3, y: 6 });
}

#[test]
fn magnitude_as_non_negative() {
    assert_eq!((-9i64).abs_as_non_neg().into_inner(), 9);
    assert_eq!(9i64.abs_as_non_neg().into_inner(), 9);
}
