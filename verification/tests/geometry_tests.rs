use geometry::Axis;
use geometry::EPoint;
use geometry::SPoint2D;
use geometry::SPoint3D;
use geometry::TCoordinate;
use geometry::TTransformable;
use geometry::TValue;
use geometry::UnsupportedAxis;

#[test]
fn scalar_operations_are_exact() {
    assert_eq!(<i64 as TValue>::zero(), 0);
    assert_eq!(<i64 as TValue>::one(), 1);
    assert_eq!(7i64.add_val(5), 12);
    assert_eq!(7i64.sub_val(9), -2);
    assert_eq!(7i64.mul_val(-3), -21);
    assert_eq!(7i64.neg_val(), -7);
    assert!(7i64.eq_val(7));
    assert!(!7i64.eq_val(8));
    assert!(7i64.lt_val(8));
    assert!(!8i64.lt_val(7));
    assert!((-1i64).is_negative());
    assert!(!1i64.is_negative());
    assert!(1i64.is_positive());
    assert!(!0i64.is_positive());
    assert_eq!(<i32 as TValue>::zero(), 0);
    assert_eq!(3i32.add_val(4), 7);
    assert_eq!(3i32.neg_val(), -3);
}

#[test]
fn flip_axis_self_swap_is_identity_3d() {
    let mut p: SPoint3D<i64> = SPoint3D::new(4, -7, 12);
    let orig: SPoint3D<i64> = p;
    p.flip_axis(Axis::Y, Axis::Y);
    assert_eq!(p, orig);
}

#[test]
fn flip_axis_self_swap_is_identity_2d() {
    let mut p: SPoint2D<i64> = SPoint2D::new(3, 8);
    let orig: SPoint2D<i64> = p;
    p.flip_axis(Axis::X, Axis::X);
    assert_eq!(p, orig);
}

#[test]
fn flip_axis_twice_restores_3d() {
    let mut p: SPoint3D<i64> = SPoint3D::new(1, 2, 3);
    let orig: SPoint3D<i64> = p;
    p.flip_axis(Axis::X, Axis::Z);
    p.flip_axis(Axis::X, Axis::Z);
    assert_eq!(p, orig);
}

#[test]
fn flip_axis_twice_restores_2d() {
    let mut p: SPoint2D<i64> = SPoint2D::new(-9, 5);
    let orig: SPoint2D<i64> = p;
    p.flip_axis(Axis::X, Axis::Y);
    p.flip_axis(Axis::X, Axis::Y);
    assert_eq!(p, orig);
}

#[test]
fn reflect_twice_restores_3d() {
    let mut p: SPoint3D<i64> = SPoint3D::new(1, -2, 3);
    let orig: SPoint3D<i64> = p;
    p.reflect();
    p.reflect();
    assert_eq!(p, orig);
}

#[test]
fn reflect_twice_restores_2d() {
    let mut p: SPoint2D<i64> = SPoint2D::new(-6, 11);
    let orig: SPoint2D<i64> = p;
    p.reflect();
    p.reflect();
    assert_eq!(p, orig);
}

#[test]
fn shift_axis_then_back_restores() {
    let mut p: SPoint3D<i64> = SPoint3D::new(10, 20, 30);
    let orig: SPoint3D<i64> = p;
    p.shift_axis(Axis::Y, 17);
    p.shift_axis(Axis::Y, -17);
    assert_eq!(p, orig);
}

#[test]
fn get_z_from_2d_is_zero() {
    let p: SPoint2D<i64> = SPoint2D::new(1234, -999);
    assert_eq!(p.get_axis_value(Axis::Z), 0);
    let q: SPoint2D<i64> = SPoint2D::new(0, 0);
    assert_eq!(q.get_axis_value(Axis::Z), 0);
}

#[test]
fn write_class_z_on_2d_is_unsupported() {
    let mut p: SPoint2D<i64> = SPoint2D::new(5, 6);
    assert_eq!(p.try_set_axis_value(Axis::Z, 42), Err(UnsupportedAxis));
    assert_eq!(p.try_shift_axis(Axis::Z, -3), Err(UnsupportedAxis));
    assert_eq!(p.try_reflect_axis(Axis::Z), Err(UnsupportedAxis));
    assert_eq!(p, SPoint2D::new(5, 6));
}

#[test]
fn write_class_xy_on_2d_succeeds() {
    let mut p: SPoint2D<i64> = SPoint2D::new(5, 6);
    assert_eq!(p.try_set_axis_value(Axis::X, 42), Ok(()));
    assert_eq!(p.try_shift_axis(Axis::Y, 4), Ok(()));
    assert_eq!(p.try_reflect_axis(Axis::X), Ok(()));
    assert_eq!(p, SPoint2D::new(-42, 10));
}

#[test]
fn flip_axis_x_z_scenario() {
    let mut p: SPoint3D<i64> = SPoint3D::new(1, 2, 3);
    p.flip_axis(Axis::X, Axis::Z);
    assert_eq!(p, SPoint3D::new(3, 2, 1));
}

#[test]
fn flip_2d_scenario() {
    let mut p: SPoint2D<i64> = SPoint2D::new(5, -4);
    p.flip();
    assert_eq!(p, SPoint2D::new(-4, 5));
}

#[test]
fn reflect_scenario() {
    let mut p: SPoint3D<i64> = SPoint3D::new(1, 2, 3);
    p.reflect();
    assert_eq!(p, SPoint3D::new(-1, -2, -3));
}

#[test]
fn shift_3d_by_2d_leaves_z() {
    let mut p: SPoint3D<i64> = SPoint3D::new(1, 2, 3);
    let q: SPoint2D<i64> = SPoint2D::new(10, 20);
    p.shift(&q);
    assert_eq!(p, SPoint3D::new(11, 22, 3));
}

#[test]
fn ordering_is_lexicographic() {
    let a: SPoint3D<i64> = SPoint3D::new(1, 0, 0);
    let b: SPoint3D<i64> = SPoint3D::new(2, 0, 0);
    assert!(a < b);
    let c: SPoint3D<i64> = SPoint3D::new(1, 5, -3);
    assert!(a < c);
    let d: SPoint2D<i64> = SPoint2D::new(1, 9);
    let e: SPoint2D<i64> = SPoint2D::new(2, 0);
    assert!(d < e);
}

#[test]
fn shift_3d_by_3d() {
    let mut p: SPoint3D<i64> = SPoint3D::new(1, 2, 3);
    let q: SPoint3D<i64> = SPoint3D::new(100, -200, 300);
    p.shift(&q);
    assert_eq!(p, SPoint3D::new(101, -198, 303));
}

#[test]
fn shift_2d_by_3d_ignores_source_z() {
    let mut p: SPoint2D<i64> = SPoint2D::new(1, 2);
    let q: SPoint3D<i64> = SPoint3D::new(10, 20, 999);
    p.shift(&q);
    assert_eq!(p, SPoint2D::new(11, 22));
}

#[test]
fn shift_axis_each_axis_3d() {
    let mut p: SPoint3D<i64> = SPoint3D::new(0, 0, 0);
    p.shift_axis(Axis::X, 1);
    p.shift_axis(Axis::Y, 2);
    p.shift_axis(Axis::Z, 3);
    assert_eq!(p, SPoint3D::new(1, 2, 3));
}

#[test]
fn reflect_axis_3d() {
    let mut p: SPoint3D<i64> = SPoint3D::new(1, 2, 3);
    p.reflect_axis(Axis::Y);
    assert_eq!(p, SPoint3D::new(1, -2, 3));
}

#[test]
fn reflect_axis_2d() {
    let mut p: SPoint2D<i64> = SPoint2D::new(7, -8);
    p.reflect_axis(Axis::X);
    assert_eq!(p, SPoint2D::new(-7, -8));
}

#[test]
fn get_and_set_each_axis_3d() {
    let mut p: SPoint3D<i64> = SPoint3D::new(1, 2, 3);
    assert_eq!(p.get_axis_value(Axis::X), 1);
    assert_eq!(p.get_axis_value(Axis::Y), 2);
    assert_eq!(p.get_axis_value(Axis::Z), 3);
    p.set_axis_value(Axis::X, 7);
    p.set_axis_value(Axis::Y, 8);
    p.set_axis_value(Axis::Z, 9);
    assert_eq!(p, SPoint3D::new(7, 8, 9));
}

#[test]
fn get_and_set_xy_2d() {
    let mut p: SPoint2D<i64> = SPoint2D::new(1, 2);
    assert_eq!(p.get_axis_value(Axis::X), 1);
    assert_eq!(p.get_axis_value(Axis::Y), 2);
    p.set_axis_value(Axis::X, -5);
    p.set_axis_value(Axis::Y, -6);
    assert_eq!(p, SPoint2D::new(-5, -6));
}

#[test]
fn mul_assign_scales_every_coordinate() {
    let mut p: SPoint3D<i64> = SPoint3D::new(1, -2, 3);
    p.mul_assign(4);
    assert_eq!(p, SPoint3D::new(4, -8, 12));
    let mut q: SPoint2D<i64> = SPoint2D::new(3, 5);
    q.mul_assign(-2);
    assert_eq!(q, SPoint2D::new(-6, -10));
}

#[test]
fn mul_assign_point_is_componentwise() {
    let mut p: SPoint3D<i64> = SPoint3D::new(2, 3, 4);
    p.mul_assign_point(SPoint3D::new(5, -6, 7));
    assert_eq!(p, SPoint3D::new(10, -18, 28));
    let mut q: SPoint2D<i64> = SPoint2D::new(2, 9);
    q.mul_assign_point(SPoint2D::new(-1, 3));
    assert_eq!(q, SPoint2D::new(-2, 27));
}

#[test]
fn default_is_origin() {
    let p: SPoint3D<i64> = Default::default();
    assert_eq!(p, SPoint3D::new(0, 0, 0));
    let q: SPoint2D<i64> = Default::default();
    assert_eq!(q, SPoint2D::new(0, 0));
}

#[test]
fn epoint_holds_either_arity() {
    let a: EPoint<i64> = EPoint::SPoint3D(SPoint3D::new(1, 2, 3));
    let b: EPoint<i64> = EPoint::SPoint2D(SPoint2D::new(4, 5));
    match a {
        EPoint::SPoint3D(p) => assert_eq!(p, SPoint3D::new(1, 2, 3)),
        EPoint::SPoint2D(_) => panic!("expected the 3-coordinate variant"),
    }
    match b {
        EPoint::SPoint3D(_) => panic!("expected the 2-coordinate variant"),
        EPoint::SPoint2D(p) => assert_eq!(p, SPoint2D::new(4, 5)),
    }
}

#[test]
fn transformations_work_for_i32_points() {
    let mut p: SPoint3D<i32> = SPoint3D::new(1, 2, 3);
    p.shift(&SPoint2D::new(10, 20));
    assert_eq!(p, SPoint3D::new(11, 22, 3));
    p.reflect();
    assert_eq!(p, SPoint3D::new(-11, -22, -3));
    p.flip_axis(Axis::X, Axis::Z);
    assert_eq!(p, SPoint3D::new(-3, -22, -11));
    p.mul_assign(2);
    assert_eq!(p, SPoint3D::new(-6, -44, -22));
}
