use panzoom::scalar::Scalar;
use panzoom::{
    GeometryError, PositionedExtent, ScreenVec, SvgPoint, SvgRect, SvgVec, ViewPortPos,
    ViewPortRect,
};

fn num(n: i32) -> Scalar {
    Scalar::from_int(n)
}

fn ratio_of(n: i64, d: i64) -> Scalar {
    Scalar::new(n, d).unwrap()
}

fn svg_rect(x: i32, y: i32, w: i32, h: i32) -> SvgRect {
    SvgRect::new(SvgPoint::new(num(x), num(y)), SvgVec::new(num(w), num(h))).unwrap()
}

fn port_rect(x: i32, y: i32, w: i32, h: i32) -> ViewPortRect {
    ViewPortRect::new(ViewPortPos::new(num(x), num(y)), num(w), num(h)).unwrap()
}

#[test]
fn svg_point_and_vector_arithmetic() {
    let p = SvgPoint::new(num(3), num(4));
    let q = SvgPoint::new(num(1), num(-1));
    let v = SvgVec::new(num(10), num(20));
    assert_eq!(p.add(v), Ok(SvgPoint::new(num(13), num(24))));
    assert_eq!(p.sub(q), Ok(SvgVec::new(num(2), num(5))));
    assert_eq!(p.sub_vec(v), Ok(SvgPoint::new(num(-7), num(-16))));
    assert_eq!(p.mul(ratio_of(1, 2)), Ok(SvgPoint::new(ratio_of(3, 2), num(2))));
    assert_eq!(v.add(v), Ok(SvgVec::new(num(20), num(40))));
    assert_eq!(v.sub(v), Ok(SvgVec::zero()));
    assert_eq!(v.mul(num(3)), Ok(SvgVec::new(num(30), num(60))));
    assert_eq!(v.div(num(4)), Ok(SvgVec::new(ratio_of(5, 2), num(5))));
    assert_eq!(v.div(num(0)), Err(GeometryError::DivisionByZero));
    assert_eq!(v.x(), num(10));
    assert_eq!(v.y(), num(20));
    assert!(SvgVec::zero().is_zero());
    assert!(!SvgVec::new(num(0), num(1)).is_zero());
    assert!(!SvgVec::new(num(1), num(0)).is_zero());
}

#[test]
fn svg_arithmetic_reports_overflow() {
    let far = SvgPoint::new(Scalar::new(i64::MAX, 1).unwrap(), num(0));
    assert_eq!(far.add(SvgVec::new(num(1), num(0))), Err(GeometryError::Overflow));
    assert_eq!(far.mul(num(2)), Err(GeometryError::Overflow));
    assert_eq!(
        SvgVec::new(num(0), Scalar::new(1, i64::MAX).unwrap()).div(num(2)),
        Err(GeometryError::Overflow)
    );
}

#[test]
fn screen_vector_and_position_arithmetic() {
    let p = ViewPortPos::new(num(30), num(40));
    let q = ViewPortPos::new(num(10), num(50));
    let v = ScreenVec::new(num(1), num(2));
    assert_eq!(p.sub(q), Ok(ScreenVec::new(num(20), num(-10))));
    assert_eq!(p.add(v), Ok(ViewPortPos::new(num(31), num(42))));
    assert_eq!(p.as_vec(), ScreenVec::new(num(30), num(40)));
    assert_eq!(v.mul(ratio_of(1, 2)), Ok(ScreenVec::new(ratio_of(1, 2), num(1))));
    assert_eq!(v.add(v), Ok(ScreenVec::new(num(2), num(4))));
    assert_eq!(v.sub(v), Ok(ScreenVec::zero()));
    assert_eq!(ViewPortPos::origin(), ViewPortPos::new(num(0), num(0)));
    assert_eq!(ViewPortPos::default(), ViewPortPos::origin());
    assert_eq!(p.x(), num(30));
    assert_eq!(p.y(), num(40));
    assert_eq!(v.x(), num(1));
    assert_eq!(v.y(), num(2));
    assert!(ScreenVec::zero().is_zero());
    assert!(!v.is_zero());
    let mut moving = p;
    assert_eq!(moving.add_assign(v), Ok(()));
    assert_eq!(moving, ViewPortPos::new(num(31), num(42)));
    let mut stuck = ViewPortPos::new(Scalar::new(i64::MAX, 1).unwrap(), num(0));
    let before = stuck;
    assert_eq!(stuck.add_assign(v), Err(GeometryError::Overflow));
    assert_eq!(stuck, before);
}

#[test]
fn rect_with_negative_dimensions_is_rejected() {
    let corner = SvgPoint::new(num(0), num(0));
    assert_eq!(
        SvgRect::new(corner, SvgVec::new(num(-1), num(5))),
        Err(GeometryError::InvalidDimensions)
    );
    assert_eq!(
        SvgRect::new(corner, SvgVec::new(num(5), ratio_of(-1, 1000))),
        Err(GeometryError::InvalidDimensions)
    );
    assert!(SvgRect::new(corner, SvgVec::new(num(0), num(0))).is_ok());
    let pos = ViewPortPos::origin();
    assert_eq!(ViewPortRect::new(pos, num(-1), num(5)), Err(GeometryError::InvalidDimensions));
    assert_eq!(ViewPortRect::new(pos, num(5), num(-1)), Err(GeometryError::InvalidDimensions));
    assert!(ViewPortRect::new(pos, num(0), num(0)).is_ok());
}

#[test]
fn svg_rect_edges() {
    let r = svg_rect(-100, -50, 200, 80);
    assert_eq!(r.left(), num(-100));
    assert_eq!(r.top(), num(-50));
    assert_eq!(r.right(), Ok(num(100)));
    assert_eq!(r.bottom(), Ok(num(30)));
    assert_eq!(r.width(), num(200));
    assert_eq!(r.height(), num(80));
    assert_eq!(r.top_left(), SvgPoint::new(num(-100), num(-50)));
    assert_eq!(r.bottom_right(), Ok(SvgPoint::new(num(100), num(30))));
    assert_eq!(r.dimensions(), SvgVec::new(num(200), num(80)));
    assert_eq!(r.aspect_radio(), Ok(ratio_of(5, 2)));
    assert_eq!(svg_rect(0, 0, 5, 0).aspect_radio(), Err(GeometryError::DivisionByZero));
}

#[test]
fn view_port_rect_edges() {
    let r = port_rect(10, 20, 300, 150);
    assert_eq!(r.left(), num(10));
    assert_eq!(r.top(), num(20));
    assert_eq!(r.right(), Ok(num(310)));
    assert_eq!(r.bottom(), Ok(num(170)));
    assert_eq!(r.width(), num(300));
    assert_eq!(r.height(), num(150));
    assert_eq!(r.top_left(), ViewPortPos::new(num(10), num(20)));
    assert_eq!(r.bottom_right(), Ok(ViewPortPos::new(num(310), num(170))));
    assert_eq!(r.aspect_ratio(), Ok(num(2)));
    assert_eq!(port_rect(0, 0, 5, 0).aspect_ratio(), Err(GeometryError::DivisionByZero));
    assert_eq!(PositionedExtent::top_left(&r), ViewPortPos::new(num(10), num(20)));
    assert_eq!(PositionedExtent::bounding_rect(&r), r);
}

#[test]
fn offset_and_relative_offset() {
    let r = port_rect(10, 20, 300, 150);
    let inside = ViewPortPos::new(num(85), num(170));
    assert_eq!(r.offset(inside), Ok(ScreenVec::new(num(75), num(150))));
    assert_eq!(r.rect_size_relative_offset(inside), Ok(ScreenVec::new(ratio_of(1, 4), num(1))));
    assert_eq!(
        r.rect_size_relative_offset(r.top_left()),
        Ok(ScreenVec::new(num(0), num(0)))
    );
    let outside = ViewPortPos::new(num(-290), num(320));
    assert_eq!(r.rect_size_relative_offset(outside), Ok(ScreenVec::new(num(-1), num(2))));
    assert_eq!(
        port_rect(0, 0, 0, 10).rect_size_relative_offset(inside),
        Err(GeometryError::DivisionByZero)
    );
    assert_eq!(
        port_rect(0, 0, 10, 0).rect_size_relative_offset(inside),
        Err(GeometryError::DivisionByZero)
    );
}
