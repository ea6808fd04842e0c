use geom2d::{Camera, Complex, Matrix, Point, Vector};

fn mat(xx: i64, xy: i64, yx: i64, yy: i64, tx: i64, ty: i64) -> Matrix<i64> {
    Matrix { xx, xy, yx, yy, tx, ty }
}

#[test]
fn identity_is_neutral() {
    let samples = [
        Matrix::<i64>::translate(Vector { x: 7, y: -3 }),
        Matrix::<i64>::scale(4, 9),
        Matrix::<i64>::rotate(Complex::from_cartesian(0, 1)),
        mat(2, 3, 5, 7, 11, 13),
    ];
    let id = Matrix::<i64>::identity();
    for m in samples {
        assert_eq!(id.mul(&m), m);
        assert_eq!(m.mul(&id), m);
    }
}

#[test]
fn multiplication_is_associative() {
    let pures = [
        Matrix::<i64>::translate(Vector { x: 5, y: -2 }),
        Matrix::<i64>::scale(3, -1),
        Matrix::<i64>::rotate(Complex::from_cartesian(0, 1)),
        Matrix::<i64>::translate(Vector { x: -8, y: 4 }),
        Matrix::<i64>::scale(-2, 6),
        Matrix::<i64>::rotate(Complex::from_cartesian(-1, 0)),
    ];
    for a in &pures {
        for b in &pures {
            for c in &pures {
                assert_eq!(a.mul(b).mul(c), a.mul(&b.mul(c)));
            }
        }
    }
}

#[test]
fn translations_compose_by_vector_addition() {
    let v1 = Vector { x: 11i64, y: -4 };
    let v2 = Vector { x: -6i64, y: 9 };
    assert_eq!(
        Matrix::translate(v1).mul(&Matrix::translate(v2)),
        Matrix::translate(v1.add(v2)),
    );
}

#[test]
fn uniform_scales_compose_by_product() {
    let a = 3i64;
    let b = -7i64;
    assert_eq!(
        Matrix::scale(a, a).mul(&Matrix::scale(b, b)),
        Matrix::scale(a * b, a * b),
    );
}

#[test]
fn rotate_matrix_carries_the_rotor() {
    let m = Matrix::rotate(Complex::from_cartesian(3i64, 4));
    assert_eq!(m, mat(3, -4, 4, 3, 0, 0));
}

#[test]
fn decomposition_reads_back_pure_transforms() {
    let s = Matrix::<i64>::scale(5, 8);
    assert_eq!(s.scale_x(), 5);
    assert_eq!(s.scale_y(), 8);
    let t = Matrix::<i64>::translate(Vector { x: -2, y: 14 });
    assert_eq!(t.translation(), Vector { x: -2, y: 14 });
}

#[test]
fn default_camera_is_identity_everywhere() {
    let cam = Camera::<i64>::default();
    let id = Matrix::<i64>::identity();
    assert_eq!(*cam.translation(), id);
    assert_eq!(*cam.scale(), id);
    assert_eq!(*cam.rotation(), id);
    assert_eq!(cam.transformation(), id);
}

#[test]
fn transformation_composes_translation_scale_rotation() {
    let mut cam = Camera::<i64>::default();
    cam.set_translation(Point { x: 10, y: 20 });
    cam.set_scale(3);
    // transformation = translate(10,20) * scale(3,3): linear diag 3, offset kept
    assert_eq!(cam.transformation(), mat(3, 0, 0, 3, 10, 20));
    cam.set_rotation(Complex::from_cartesian(0, 1));
    // rotation by i maps (x, y) to (-y, x) before scaling and translating
    assert_eq!(cam.transformation(), mat(0, -3, 3, 0, 10, 20));
}

#[test]
fn setters_replace_only_their_own_matrix() {
    let mut cam = Camera::<i64>::default();
    cam.set_scale(4);
    cam.set_translation(Point { x: 1, y: 2 });
    cam.set_rotation(Complex::from_cartesian(0, -1));
    assert_eq!(*cam.scale(), Matrix::scale(4, 4));
    assert_eq!(*cam.translation(), Matrix::translate(Vector { x: 1, y: 2 }));
    assert_eq!(*cam.rotation(), mat(0, 1, -1, 0, 0, 0));
}

#[test]
fn zoom_in_place_at_origin_scales_without_translation() {
    let mut cam = Camera::<i64>::default();
    cam.concat_scale_centered(2, Point { x: 0, y: 0 }, Point { x: 0, y: 0 });
    assert_eq!(*cam.scale(), Matrix::scale(2, 2));
    assert_eq!(cam.scale().scale_x(), 2);
    assert_eq!(cam.scale().scale_y(), 2);
    assert_eq!(cam.translation().translation(), Vector { x: 0, y: 0 });
}

#[test]
fn unit_zoom_at_current_pivot_changes_nothing() {
    let mut cam = Camera::<i64>::default();
    cam.set_translation(Point { x: 3, y: 4 });
    cam.set_scale(5);
    let pivot = Point { x: 7i64, y: 9 };
    cam.concat_scale_centered(1, pivot, pivot);
    assert_eq!(*cam.scale(), Matrix::scale(5, 5));
    assert_eq!(*cam.translation(), Matrix::translate(Vector { x: 3, y: 4 }));
    assert_eq!(*cam.rotation(), Matrix::identity());
}

#[test]
fn unit_zoom_between_pivots_pans() {
    let mut cam = Camera::<i64>::default();
    let res = Point { x: 10i64, y: 0 };
    cam.concat_scale_centered(1, res, Point { x: 0, y: 0 });
    assert_eq!(*cam.scale(), Matrix::scale(1, 1));
    assert_eq!(cam.translation().translation(), Vector { x: 10, y: 0 });
}

#[test]
fn centered_zoom_keeps_the_pivot_fixed() {
    // camera anchored at pivot (10, 0); zooming by 3 about it must move
    // the translation so the pivot still renders at itself
    let mut cam = Camera::<i64>::default();
    cam.set_translation(Point { x: 4, y: 6 });
    cam.set_scale(2);
    let pivot = Point { x: 10i64, y: 0 };
    cam.concat_scale_centered(3, pivot, pivot);
    assert_eq!(*cam.scale(), Matrix::scale(6, 6));
    // new translation: 3 * ((4,6) - (10,0)) + (10,0) = (-8, 18)
    assert_eq!(cam.translation().translation(), Vector { x: -8, y: 18 });
    assert_eq!(*cam.rotation(), Matrix::identity());
}

#[test]
fn centered_zoom_discards_rotation_from_the_pipeline() {
    let mut cam = Camera::<i64>::default();
    cam.set_rotation(Complex::from_cartesian(0, 1));
    cam.concat_scale_centered(2, Point { x: 0, y: 0 }, Point { x: 0, y: 0 });
    // the rotation field stays what it was and never folds into scale
    assert_eq!(*cam.rotation(), Matrix::rotate(Complex::from_cartesian(0, 1)));
    assert_eq!(*cam.scale(), Matrix::scale(2, 2));
}

#[test]
fn two_pans_accumulate() {
    let mut cam = Camera::<i64>::default();
    cam.add_translation(Vector { x: 5, y: 0 });
    cam.add_translation(Vector { x: 0, y: 3 });
    assert_eq!(*cam.translation(), Matrix::translate(Vector { x: 5, y: 3 }));
}
