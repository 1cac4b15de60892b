use coord_2d::static_axis;
use coord_2d::{
    Axis, Coord, DimensionTooLargeForCoord, DimensionTooLargeForSize, NegativeDimension, Size,
    MAX_SIZE_FIELD,
};

#[test]
fn try_new_round_trips() {
    for (w, h) in [(0, 0), (3, 7), (MAX_SIZE_FIELD, 0), (MAX_SIZE_FIELD, MAX_SIZE_FIELD)] {
        let s = Size::try_new(w, h).unwrap();
        assert_eq!(s.width(), w);
        assert_eq!(s.height(), h);
        assert_eq!(s.x(), w);
        assert_eq!(s.y(), h);
    }
}

#[test]
fn try_new_rejects_too_large() {
    assert!(matches!(
        Size::try_new(MAX_SIZE_FIELD + 1, 0),
        Err(DimensionTooLargeForSize)
    ));
    assert!(matches!(
        Size::try_new(0, u32::MAX),
        Err(DimensionTooLargeForSize)
    ));
    assert!(Size::try_set_width(Size::new(1, 1), MAX_SIZE_FIELD + 1).is_err());
    assert_eq!(MAX_SIZE_FIELD, 2147483648);
    assert_eq!(Size::max_field(), MAX_SIZE_FIELD);
    assert_eq!(Size::max(), Size::new(MAX_SIZE_FIELD, MAX_SIZE_FIELD));
}

#[test]
fn coord_size_conversions() {
    assert_eq!(Coord::new(3, 4).to_size().unwrap(), Size::new(3, 4));
    assert!(matches!(Coord::new(-1, 4).to_size(), Err(NegativeDimension)));
    assert!(matches!(Size::from_coord(Coord::new(1, -4)), Err(NegativeDimension)));
    assert_eq!(Size::new(5, 6).to_coord().unwrap(), Coord::new(5, 6));
    assert_eq!(
        Coord::from_size(Size::new(2147483647, 0)).unwrap(),
        Coord::new(i32::MAX, 0)
    );
    assert!(matches!(
        Size::new(MAX_SIZE_FIELD, 0).to_coord(),
        Err(DimensionTooLargeForCoord)
    ));
}

#[test]
fn size_setters_keep_the_bound() {
    let s = Size::new(2, 3);
    assert_eq!(s.get(Axis::Y), 3);
    assert_eq!(s.set(Axis::X, 9), Size::new(9, 3));
    assert_eq!(s.try_set(Axis::Y, 1).unwrap(), Size::new(2, 1));
    assert!(s.try_set(Axis::Y, MAX_SIZE_FIELD + 1).is_err());
    let mut m = s;
    assert!(m.try_set_in_place(Axis::X, u32::MAX).is_err());
    assert_eq!(m, s);
    m.set_in_place(Axis::Y, 8);
    assert_eq!(m, Size::new(2, 8));
    assert!(m.try_set_width_in_place(4).is_ok());
    assert!(m.try_set_height_in_place(MAX_SIZE_FIELD + 5).is_err());
    assert_eq!(m, Size::new(4, 8));
    m.set_width_in_place(1);
    m.set_height_in_place(2);
    assert_eq!(m, Size::new(1, 2));
    assert_eq!(s.set_width(7).set_height(6), Size::new(7, 6));
    assert_eq!(s.try_set_height(5).unwrap(), Size::new(2, 5));
    assert_eq!(s.with_axis(Axis::X, |v| v + 1), Size::new(3, 3));
}

#[test]
fn size_axis_constructors() {
    assert_eq!(Size::new_axis(1, 2, Axis::Y), Size::new(2, 1));
    assert_eq!(Size::try_new_axis(1, 2, Axis::X).unwrap(), Size::new(1, 2));
    assert!(Size::try_new_axis(1, MAX_SIZE_FIELD + 1, Axis::X).is_err());
    assert_eq!(Axis::Y.try_new_size(4, 5).unwrap(), Size::new(5, 4));
    assert_eq!(Axis::X.new_size(4, 5), Size::new(4, 5));
    assert_eq!(Size::new_u16(u16::MAX, 1), Size::new(65535, 1));
}

#[test]
fn size_static_axis() {
    let s = Size::new(2, 3);
    assert_eq!(s.get_static::<static_axis::X>(), 2);
    assert_eq!(s.set_static::<static_axis::Y>(0), Size::new(2, 0));
    assert!(s.try_set_static::<static_axis::X>(MAX_SIZE_FIELD + 1).is_err());
    assert_eq!(
        s.with_static_axis::<static_axis::Y, _>(|v| v * 2),
        Size::new(2, 6)
    );
    assert_eq!(
        Size::new_static_axis::<static_axis::Y>(1, 2),
        Size::new(2, 1)
    );
    assert!(Size::try_new_static_axis::<static_axis::X>(u32::MAX, 0).is_err());
    let mut m = s;
    assert!(m.try_set_static_in_place::<static_axis::Y>(9).is_ok());
    m.set_static_in_place::<static_axis::X>(8);
    assert_eq!(m, Size::new(8, 9));
}

#[test]
fn size_arithmetic() {
    let a = Size::new(5, 2);
    let b = Size::new(3, 4);
    assert_eq!(a.count(), 10);
    assert_eq!(Size::new(0, 9).count(), 0);
    assert_eq!(
        Size::new(MAX_SIZE_FIELD, 2).count(),
        2 * MAX_SIZE_FIELD as usize
    );
    assert_eq!(a.checked_sub(Size::new(1, 2)), Some(Size::new(4, 0)));
    assert_eq!(a.checked_sub(b), None);
    assert_eq!(a.saturating_sub(b), Size::new(2, 0));
    assert_eq!(a.pairwise_max(b), Size::new(5, 4));
    assert_eq!(a.pairwise_min(b), Size::new(3, 2));
    assert!(Size::default().is_zero());
    assert!(!Size::new(0, 1).is_zero());
}

fn walk(size: Size) -> Vec<Coord> {
    let mut it = size.coord_iter_row_major();
    let mut out = Vec::new();
    while let Some(c) = it.next() {
        out.push(c);
    }
    out
}

#[test]
fn row_major_order() {
    assert_eq!(
        walk(Size::new(2, 2)),
        vec![
            Coord::new(0, 0),
            Coord::new(1, 0),
            Coord::new(0, 1),
            Coord::new(1, 1)
        ]
    );
    let mut it = Size::new(2, 2).coord_iter_row_major();
    for _ in 0..4 {
        assert!(it.next().is_some());
    }
    assert_eq!(it.next(), None);
    assert_eq!(it.next(), None);
}

#[test]
fn row_major_empty_and_narrow() {
    assert!(walk(Size::new(0, 3)).is_empty());
    assert!(walk(Size::new(3, 0)).is_empty());
    assert!(walk(Size::new(0, 0)).is_empty());
    assert_eq!(
        walk(Size::new(1, 3)),
        vec![Coord::new(0, 0), Coord::new(0, 1), Coord::new(0, 2)]
    );
    let mut it = Size::new(MAX_SIZE_FIELD, 1).coord_iter_row_major();
    assert_eq!(it.next(), Some(Coord::new(0, 0)));
}
