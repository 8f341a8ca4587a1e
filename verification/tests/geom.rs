use docframe::geom::{
    Abs, Align, Axes, Color, Em, Point, Ratio, Size, Transform, UNITS_PER_MM, UNITS_PER_PT,
};

#[test]
fn points_and_millimeters_are_exact() {
    assert_eq!(Abs::pt(1).to_raw(), UNITS_PER_PT);
    assert_eq!(Abs::pt(10).to_raw(), 127_000);
    assert_eq!(Abs::mm(1).to_raw(), UNITS_PER_MM);
    assert_eq!(Abs::mm(-3).to_raw(), -108_000);
    assert_eq!(Abs::pt(i32::MAX).to_raw(), 2_147_483_647 * 12_700);
    assert_eq!(Abs::pt(i32::MIN).to_raw(), -2_147_483_648 * 12_700);
}

#[test]
fn lengths_add_and_subtract() {
    assert_eq!(Abs::pt(10).plus(Abs::pt(5)), Abs::pt(15));
    assert_eq!(Abs::pt(10).minus(Abs::pt(25)), Abs::pt(-15));
    assert_eq!(Abs::zero().plus(Abs::zero()), Abs::zero());
    assert!(Abs::zero().is_zero());
    assert!(!Abs::raw(1).is_zero());
}

#[test]
fn sums_stop_at_the_ends_of_the_range() {
    assert_eq!(Abs::raw(i64::MAX).plus(Abs::raw(1)), Abs::raw(i64::MAX));
    assert_eq!(Abs::raw(i64::MAX).plus(Abs::raw(i64::MAX)), Abs::raw(i64::MAX));
    assert_eq!(Abs::raw(i64::MIN).plus(Abs::raw(-1)), Abs::raw(i64::MIN));
    assert_eq!(Abs::raw(i64::MIN).minus(Abs::raw(1)), Abs::raw(i64::MIN));
    assert_eq!(Abs::raw(0).minus(Abs::raw(i64::MIN)), Abs::raw(i64::MAX));
    assert_eq!(Abs::raw(i64::MAX).plus(Abs::raw(-1)), Abs::raw(i64::MAX - 1));
}

#[test]
fn halving_rounds_toward_zero() {
    assert_eq!(Abs::raw(10).half(), Abs::raw(5));
    assert_eq!(Abs::raw(11).half(), Abs::raw(5));
    assert_eq!(Abs::raw(-11).half(), Abs::raw(-5));
    assert_eq!(Abs::raw(-1).half(), Abs::raw(0));
    assert_eq!(Abs::raw(i64::MIN).half(), Abs::raw(i64::MIN / 2));
}

#[test]
fn em_at_font_size() {
    assert_eq!(Em::raw(1000).at(Abs::pt(12)), Abs::pt(12));
    assert_eq!(Em::raw(500).at(Abs::pt(12)), Abs::pt(6));
    assert_eq!(Em::raw(800).at(Abs::pt(10)), Abs::pt(8));
    assert_eq!(Em::raw(-250).at(Abs::pt(8)), Abs::pt(-2));
    assert_eq!(Em::zero().at(Abs::pt(8)), Abs::zero());
    assert_eq!(Em::raw(1).at(Abs::raw(999)), Abs::raw(0));
    assert_eq!(Em::raw(-1).at(Abs::raw(1999)), Abs::raw(-1));
    assert_eq!(Em::raw(333).to_raw(), 333);
}

#[test]
fn em_at_font_size_stops_at_the_ends_of_the_range() {
    assert_eq!(Em::raw(i64::MAX).at(Abs::raw(i64::MAX)), Abs::raw(i64::MAX));
    assert_eq!(Em::raw(i64::MIN).at(Abs::raw(i64::MAX)), Abs::raw(i64::MIN));
    assert_eq!(Em::raw(i64::MIN).at(Abs::raw(i64::MIN)), Abs::raw(i64::MAX));
    assert_eq!(Em::raw(2000).at(Abs::raw(i64::MAX)), Abs::raw(i64::MAX));
}

#[test]
fn points_move_by_offsets() {
    let p = Point::new(Abs::pt(1), Abs::pt(2));
    let q = p.plus(Point::new(Abs::pt(10), Abs::pt(-20)));
    assert_eq!(q, Point::new(Abs::pt(11), Abs::pt(-18)));
    assert_eq!(p.plus(Point::zero()), p);
    assert!(Point::zero().is_zero());
    assert!(!Point::with_x(Abs::pt(1)).is_zero());
    assert!(!Point::with_y(Abs::pt(1)).is_zero());
    assert_eq!(Point::with_x(Abs::pt(3)), Point::new(Abs::pt(3), Abs::zero()));
    assert_eq!(Point::with_y(Abs::pt(3)), Point::new(Abs::zero(), Abs::pt(3)));
}

#[test]
fn sizes() {
    let s = Size::new(Abs::pt(3), Abs::pt(4));
    assert_eq!(s.x, Abs::pt(3));
    assert_eq!(s.y, Abs::pt(4));
    assert_eq!(s.to_point(), Point::new(Abs::pt(3), Abs::pt(4)));
    assert_eq!(Size::zero(), Size::new(Abs::zero(), Abs::zero()));
}

#[test]
fn alignment_positions() {
    let extent = Abs::pt(10);
    assert_eq!(Align::Left.position(extent), Abs::zero());
    assert_eq!(Align::Top.position(extent), Abs::zero());
    assert_eq!(Align::Center.position(extent), Abs::pt(5));
    assert_eq!(Align::Horizon.position(extent), Abs::pt(5));
    assert_eq!(Align::Right.position(extent), Abs::pt(10));
    assert_eq!(Align::Bottom.position(extent), Abs::pt(10));
    assert_eq!(Align::Center.position(Abs::raw(-7)), Abs::raw(-3));
    assert!(Align::Left.is_horizontal());
    assert!(Align::Center.is_horizontal());
    assert!(Align::Right.is_horizontal());
    assert!(!Align::Top.is_horizontal());
    assert!(!Align::Horizon.is_horizontal());
    assert!(!Align::Bottom.is_horizontal());
    let axes = Axes::new(Align::Left, Align::Bottom);
    assert_eq!(axes.x, Align::Left);
    assert_eq!(axes.y, Align::Bottom);
}

#[test]
fn transforms() {
    let id = Transform::identity();
    assert!(id.is_identity());
    assert_eq!(id.sx, Ratio::one());
    assert_eq!(id.sy, Ratio::one());
    assert_eq!(id.kx, Ratio::zero());
    assert_eq!(id.ky, Ratio::zero());
    assert_eq!(id.tx, Abs::zero());
    assert_eq!(id.ty, Abs::zero());
    let moved = Transform::translate(Abs::pt(1), Abs::pt(2));
    assert!(!moved.is_identity());
    assert_eq!(moved.tx, Abs::pt(1));
    assert_eq!(moved.ty, Abs::pt(2));
    assert_eq!(moved.sx, Ratio::one());
    let scaled = Transform::scale(Ratio::raw(2_000_000), Ratio::raw(500_000));
    assert_eq!(scaled.sx, Ratio::raw(2_000_000));
    assert_eq!(scaled.sy, Ratio::raw(500_000));
    assert_eq!(scaled.tx, Abs::zero());
    assert!(Transform::translate(Abs::zero(), Abs::zero()).is_identity());
}

#[test]
fn colors() {
    let c = Color::rgb(1, 2, 3);
    assert_eq!((c.r, c.g, c.b, c.a), (1, 2, 3, 255));
}
