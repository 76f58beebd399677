use panzoom::scalar::Scalar;
use panzoom::{GeometryError, SvgPoint, SvgRect, SvgVec, ToSvgString, ViewBox};

fn whole(n: i32) -> Scalar {
    Scalar::from_int(n)
}

fn quotient(n: i64, d: i64) -> Scalar {
    Scalar::new(n, d).unwrap()
}

fn rect(x: i32, y: i32, w: i32, h: i32) -> SvgRect {
    SvgRect::new(SvgPoint::new(whole(x), whole(y)), SvgVec::new(whole(w), whole(h))).unwrap()
}

#[test]
fn default_view_box() {
    let view_box = ViewBox::default();
    assert_eq!(view_box.view_box(), rect(-100, -100, 200, 200));
    assert_eq!(view_box.content_box(), rect(-100, -100, 200, 200));
    assert_eq!(view_box.min_x(), whole(-100));
    assert_eq!(view_box.min_y(), whole(-100));
    assert_eq!(view_box.width(), whole(200));
    assert_eq!(view_box.height(), whole(200));
    assert_eq!(view_box.top_left(), SvgPoint::new(whole(-100), whole(-100)));
}

#[test]
fn scale_of_equal_boxes_is_one() {
    let view_box = ViewBox::new(rect(-100, -100, 200, 200), rect(-100, -100, 200, 200));
    assert_eq!(view_box.scale(), Ok(whole(1)));
    assert_eq!(ViewBox::default().scale(), Ok(whole(1)));
}

#[test]
fn scale_is_the_larger_ratio() {
    let wide = ViewBox::new(rect(0, 0, 100, 100), rect(0, 0, 300, 200));
    assert_eq!(wide.scale(), Ok(whole(3)));
    let tall = ViewBox::new(rect(0, 0, 100, 100), rect(0, 0, 25, 50));
    assert_eq!(tall.scale(), Ok(quotient(1, 2)));
}

#[test]
fn scale_of_content_without_area() {
    let nothing = ViewBox::new(rect(0, 0, 100, 100), rect(5, 5, 0, 0));
    assert_eq!(nothing.scale(), Ok(whole(1)));
    let nothing_in_nothing = ViewBox::new(rect(0, 0, 0, 0), rect(5, 5, 0, 0));
    assert_eq!(nothing_in_nothing.scale(), Ok(whole(1)));
    let no_width = ViewBox::new(rect(0, 0, 100, 100), rect(0, 0, 0, 250));
    assert_eq!(no_width.scale(), Ok(quotient(5, 2)));
    let no_height = ViewBox::new(rect(0, 0, 100, 200), rect(0, 0, 250, 0));
    assert_eq!(no_height.scale(), Ok(quotient(5, 2)));
}

#[test]
fn scale_that_divides_by_zero() {
    let flat_window = ViewBox::new(rect(0, 0, 100, 0), rect(0, 0, 10, 10));
    assert_eq!(flat_window.scale(), Err(GeometryError::DivisionByZero));
    let thin_window = ViewBox::new(rect(0, 0, 0, 100), rect(0, 0, 10, 10));
    assert_eq!(thin_window.scale(), Err(GeometryError::DivisionByZero));
    let thin_content = ViewBox::new(rect(0, 0, 100, 0), rect(0, 0, 0, 10));
    assert_eq!(thin_content.scale(), Err(GeometryError::DivisionByZero));
    let flat_content = ViewBox::new(rect(0, 0, 0, 100), rect(0, 0, 10, 0));
    assert_eq!(flat_content.scale(), Err(GeometryError::DivisionByZero));
    let flat_both = ViewBox::new(rect(0, 0, 100, 0), rect(0, 0, 10, 0));
    assert_eq!(flat_both.scale(), Ok(quotient(1, 10)));
    let thin_both = ViewBox::new(rect(0, 0, 0, 100), rect(0, 0, 0, 10));
    assert_eq!(thin_both.scale(), Ok(quotient(1, 10)));
}

#[test]
fn scale_reports_overflow() {
    let tiny = Scalar::new(1, i64::MAX).unwrap();
    let window = SvgRect::new(SvgPoint::new(whole(0), whole(0)), SvgVec::new(tiny, tiny)).unwrap();
    let view_box = ViewBox::new(window, rect(0, 0, 2, 2));
    assert_eq!(view_box.scale(), Err(GeometryError::Overflow));
}

#[test]
fn set_scale_divides_the_content_extent() {
    let mut view_box = ViewBox::default();
    assert_eq!(view_box.set_scale(whole(2)), Ok(()));
    assert_eq!(view_box.view_box(), rect(-100, -100, 100, 100));
    assert_eq!(view_box.content_box(), rect(-100, -100, 200, 200));
    assert_eq!(view_box.scale(), Ok(whole(2)));
}

#[test]
fn set_scale_then_scale_gives_the_scale_back() {
    for (n, d) in [(3i64, 7i64), (1, 1), (1000, 3), (1, 1000000), (21, 20)] {
        let mut view_box = ViewBox::new(rect(-3, 4, 7, 9), rect(0, 0, 640, 480));
        let scale = quotient(n, d);
        assert_eq!(view_box.set_scale(scale), Ok(()));
        assert_eq!(view_box.scale(), Ok(scale));
        assert_eq!(view_box.top_left(), SvgPoint::new(whole(-3), whole(4)));
    }
    let mut no_width = ViewBox::new(rect(0, 0, 7, 9), rect(0, 0, 0, 480));
    assert_eq!(no_width.set_scale(quotient(3, 7)), Ok(()));
    assert_eq!(no_width.scale(), Ok(quotient(3, 7)));
}

#[test]
fn set_scale_with_content_of_no_height() {
    let mut view_box = ViewBox::new(rect(0, 0, 7, 9), rect(0, 0, 640, 0));
    assert_eq!(view_box.set_scale(whole(2)), Ok(()));
    assert_eq!(view_box.view_box(), rect(0, 0, 320, 0));
    assert_eq!(view_box.scale(), Ok(whole(2)));
}

#[test]
fn set_scale_with_content_of_no_area_leaves_scale_one() {
    let mut view_box = ViewBox::new(rect(0, 0, 7, 9), rect(3, 3, 0, 0));
    assert_eq!(view_box.set_scale(whole(2)), Ok(()));
    assert_eq!(view_box.view_box(), rect(0, 0, 0, 0));
    assert_eq!(view_box.scale(), Ok(whole(1)));
}

#[test]
fn set_scale_rejects_zero() {
    let mut view_box = ViewBox::default();
    assert_eq!(view_box.set_scale(whole(0)), Err(GeometryError::DivisionByZero));
    assert_eq!(view_box, ViewBox::default());
}

#[test]
fn set_scale_reports_overflow_and_keeps_the_state() {
    let mut view_box = ViewBox::default();
    assert_eq!(
        view_box.set_scale(Scalar::new(1, i64::MAX).unwrap()),
        Err(GeometryError::Overflow)
    );
    assert_eq!(view_box, ViewBox::default());
}

#[test]
fn set_top_left_and_content_box() {
    let mut view_box = ViewBox::default();
    view_box.set_top_left(SvgPoint::new(whole(5), whole(-6)));
    assert_eq!(view_box.view_box(), rect(5, -6, 200, 200));
    assert_eq!(view_box.content_box(), rect(-100, -100, 200, 200));
    view_box.set_content_box(rect(1, 2, 30, 40));
    assert_eq!(view_box.content_box(), rect(1, 2, 30, 40));
    assert_eq!(view_box.view_box(), rect(5, -6, 200, 200));
    assert_eq!(view_box.scale(), Ok(quotient(1, 5)));
}

#[test]
fn svg_string_of_the_default_view_box() {
    assert_eq!(ViewBox::default().to_svg_string(), "-100 -100 200 200");
}

#[test]
fn svg_string_with_fractions() {
    let mut view_box = ViewBox::default();
    view_box.set_top_left(SvgPoint::new(quotient(-5, 2), quotient(1, 8)));
    view_box.set_scale(whole(3)).unwrap();
    assert_eq!(view_box.to_svg_string(), "-2.5 0.125 66.666666 66.666666");
}
