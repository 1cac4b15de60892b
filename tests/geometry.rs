use coord_2d::static_axis;
use coord_2d::{Axis, Coord, Size};

#[test]
fn normalize() {
    assert_eq!(
        Coord::new(5, 2).normalize(Size::new(2, 3)),
        Coord::new(1, 2)
    );
    assert_eq!(
        Coord::new(-4, 3).normalize(Size::new(3, 1)),
        Coord::new(2, 0)
    );
}

#[test]
fn manhattan_dsitance() {
    assert_eq!(Coord::new(-2, 4).manhattan_distance(Coord::new(5, -2)), 13);
}

#[test]
fn rotation() {
    assert_eq!(Coord::new(2, -3).opposite(), Coord::new(-2, 3));
    assert_eq!(Coord::new(2, -3).left90(), Coord::new(-3, -2));
    assert_eq!(Coord::new(2, -3).right90(), Coord::new(3, 2));
    assert_eq!(Coord::new(0, -1).cardinal_left135(), Coord::new(-1, 1));
    assert_eq!(Coord::new(0, -1).cardinal_right135(), Coord::new(1, 1));
    assert_eq!(Coord::new(-1, 0).cardinal_left135(), Coord::new(1, 1));
    assert_eq!(Coord::new(-1, 0).cardinal_right135(), Coord::new(1, -1));
}

#[test]
fn rotation_round_trips() {
    let c = Coord::new(7, -11);
    assert_eq!(c.opposite().opposite(), c);
    assert_eq!(c.right90().left90(), c);
    assert_eq!(c.left90().right90(), c);
}

#[test]
fn cardinal_45_formulas() {
    assert_eq!(Coord::new(2, 5).cardinal_left45(), Coord::new(7, 3));
    assert_eq!(Coord::new(2, 5).cardinal_right45(), Coord::new(-3, 7));
}

#[test]
fn normalize_wraps_extremes() {
    let big = Size::new(2147483648, 1);
    assert_eq!(Coord::new(-1, 5).normalize(big), Coord::new(2147483647, 0));
    assert_eq!(
        Coord::new(i32::MIN, i32::MIN).normalize(Size::new(3, 7)),
        Coord::new(1, 5)
    );
    assert_eq!(Coord::new(-6, 6).normalize(Size::new(3, 3)), Coord::new(0, 0));
}

#[test]
fn is_valid_bounds() {
    let size = Size::new(3, 2);
    assert!(Coord::new(0, 0).is_valid(size));
    assert!(Coord::new(2, 1).is_valid(size));
    assert!(!Coord::new(3, 1).is_valid(size));
    assert!(!Coord::new(2, 2).is_valid(size));
    assert!(!Coord::new(-1, 0).is_valid(size));
    assert!(!Coord::new(0, -1).is_valid(size));
    assert!(size.is_valid(Coord::new(1, 1)));
    assert!(!Coord::new(0, 0).is_valid(Size::new(0, 5)));
}

#[test]
fn constrain_clamps_into_grid() {
    let size = Size::new(4, 3);
    assert_eq!(Coord::new(-5, 10).constrain(size), Some(Coord::new(0, 2)));
    assert_eq!(Coord::new(9, -1).constrain(size), Some(Coord::new(3, 0)));
    assert_eq!(Coord::new(2, 1).constrain(size), Some(Coord::new(2, 1)));
    assert_eq!(size.constrain(Coord::new(100, 100)), Some(Coord::new(3, 2)));
    for c in [Coord::new(i32::MIN, i32::MAX), Coord::new(i32::MAX, i32::MIN)] {
        assert!(c.constrain(size).unwrap().is_valid(size));
    }
    let max = Size::max();
    assert_eq!(
        Coord::new(i32::MAX, -3).constrain(max),
        Some(Coord::new(i32::MAX, 0))
    );
}

#[test]
fn constrain_zero_size_gives_none() {
    assert_eq!(Coord::new(1, 1).constrain(Size::new(0, 4)), None);
    assert_eq!(Coord::new(1, 1).constrain(Size::new(4, 0)), None);
    assert_eq!(Coord::new(0, 0).constrain(Size::new(0, 0)), None);
}

#[test]
fn checked_arithmetic() {
    let a = Coord::new(3, -4);
    assert_eq!(a.checked_add(Coord::new(1, 2)), Some(Coord::new(4, -2)));
    assert_eq!(a.checked_add(Coord::new(i32::MAX, 0)), None);
    assert_eq!(a.checked_sub(Coord::new(1, 2)), Some(Coord::new(2, -6)));
    assert_eq!(a.checked_sub(Coord::new(0, i32::MAX)), None);
    assert_eq!(a.checked_mul(-3), Some(Coord::new(-9, 12)));
    assert_eq!(Coord::new(1, i32::MAX).checked_mul(2), None);
    assert_eq!(Coord::new(-7, 7).checked_div(2), Some(Coord::new(-3, 3)));
    assert_eq!(a.checked_div(0), None);
    assert_eq!(Coord::new(1, i32::MIN).checked_div(-1), None);
}

#[test]
fn magnitudes_and_distances() {
    assert_eq!(Coord::new(3, -4).magnitude2(), 25);
    assert_eq!(Coord::new(1, 1).distance2(Coord::new(4, 5)), 25);
    assert_eq!(Coord::new(-46341, 0).magnitude2(), 2147488281);
    assert_eq!(Coord::new(-3, 4).manhattan_magnitude(), 7);
    assert_eq!(
        Coord::new(i32::MIN, 0).manhattan_distance(Coord::new(i32::MAX, 0)),
        u32::MAX
    );
}

#[test]
fn axis_access() {
    let c = Coord::new(4, 9);
    assert_eq!(c.get(Axis::X), 4);
    assert_eq!(c.get(Axis::Y), 9);
    assert_eq!(c.set(Axis::Y, 1), Coord::new(4, 1));
    assert_eq!(c.with_axis(Axis::X, |v| v * 10), Coord::new(40, 9));
    assert_eq!(Coord::new_axis(1, 2, Axis::Y), Coord::new(2, 1));
    assert_eq!(Axis::X.new_coord(1, 2), Coord::new(1, 2));
    let mut m = c;
    *m.get_mut(Axis::Y) += 1;
    assert_eq!(m, Coord::new(4, 10));
    m.set_in_place(Axis::X, -2);
    assert_eq!(m, Coord::new(-2, 10));
    m.set_x_in_place(5);
    m.set_y_in_place(6);
    assert_eq!(m, Coord::new(5, 6));
    assert_eq!(m.set_x(0).set_y(1), Coord::new(0, 1));
}

#[test]
fn static_axis_access() {
    let c = Coord::new(4, 9);
    assert_eq!(c.get_static::<static_axis::Y>(), 9);
    assert_eq!(c.set_static::<static_axis::X>(7), Coord::new(7, 9));
    assert_eq!(
        c.with_static_axis::<static_axis::Y, _>(|v| v - 10),
        Coord::new(4, -1)
    );
    assert_eq!(
        Coord::new_static_axis::<static_axis::Y>(1, 2),
        Coord::new(2, 1)
    );
    let mut m = c;
    *m.get_static_mut::<static_axis::X>() = 0;
    m.set_static_in_place::<static_axis::Y>(3);
    assert_eq!(m, Coord::new(0, 3));
}

#[test]
fn axis_other_is_involution() {
    assert_eq!(Axis::X.other(), Axis::Y);
    assert_eq!(Axis::Y.other(), Axis::X);
    assert_eq!(Axis::X.other().other(), Axis::X);
    assert_eq!(Axis::Y.other().other(), Axis::Y);
}

#[test]
fn coord_pairwise_and_conversions() {
    let a = Coord::new(1, 8);
    let b = Coord::new(5, -2);
    assert_eq!(a.pairwise_max(b), Coord::new(5, 8));
    assert_eq!(a.pairwise_min(b), Coord::new(1, -2));
    assert_eq!(Coord::from((3, 4)), Coord::new(3, 4));
    assert_eq!(Coord::from([3, 4]), Coord::new(3, 4));
    assert_eq!(Coord::default(), Coord::new(0, 0));
    assert!(Coord::default().is_zero());
    assert!(!a.is_zero());
}
