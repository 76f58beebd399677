use panzoom::scalar::Scalar;
use panzoom::{epsilon, AffineTransformMatrix, GeometryError, SvgPoint, ViewPortPos};

fn si(n: i32) -> Scalar {
    Scalar::from_int(n)
}

fn part(n: i64, d: i64) -> Scalar {
    Scalar::new(n, d).unwrap()
}

fn matrix(a: i32, b: i32, c: i32, d: i32, e: i32, f: i32) -> AffineTransformMatrix {
    AffineTransformMatrix::new(si(a), si(b), si(c), si(d), si(e), si(f))
}

#[test]
fn epsilon_is_two_to_the_minus_52() {
    assert_eq!(epsilon().to_fraction(), (1, 1i64 << 52));
}

#[test]
fn matrix_keeps_its_coefficients() {
    let m = matrix(1, 2, 3, 4, 5, 6);
    assert_eq!(m.coefficients(), [si(1), si(2), si(3), si(4), si(5), si(6)]);
}

#[test]
fn apply_follows_the_formula() {
    let m = matrix(1, 2, 3, 4, 5, 6);
    // x' = 1*7 + 3*(-2) + 5, y' = 2*7 + 4*(-2) + 6
    assert_eq!(m.apply(si(7), si(-2)), Ok((si(6), si(12))));
    assert_eq!(
        ViewPortPos::from_svg_coords(SvgPoint::new(si(7), si(-2)), m),
        Ok(ViewPortPos::new(si(6), si(12)))
    );
    assert_eq!(
        ViewPortPos::new(si(7), si(-2)).to_svg_coords(m),
        Ok(SvgPoint::new(si(6), si(12)))
    );
}

#[test]
fn apply_reports_overflow() {
    let m = AffineTransformMatrix::new(
        Scalar::new(i64::MAX, 1).unwrap(),
        si(0),
        si(0),
        si(1),
        si(0),
        si(0),
    );
    assert_eq!(m.apply(si(2), si(0)), Err(GeometryError::Overflow));
    assert_eq!(m.apply(si(1), si(0)), Ok((Scalar::new(i64::MAX, 1).unwrap(), si(0))));
    let shifted = AffineTransformMatrix::new(
        si(1),
        si(0),
        si(0),
        si(1),
        si(0),
        Scalar::new(i64::MAX, 1).unwrap(),
    );
    assert_eq!(shifted.apply(si(0), si(1)), Err(GeometryError::Overflow));
}

#[test]
fn inverse_of_a_scaling_and_translation() {
    let m = matrix(2, 0, 0, 4, 10, 20);
    let inverse = m.try_inverse().unwrap();
    assert_eq!(
        inverse.coefficients(),
        [part(1, 2), si(0), si(0), part(1, 4), si(-5), si(-5)]
    );
}

#[test]
fn inverse_follows_the_formula() {
    // det = 1*4 - 3*2 = -2
    let m = matrix(1, 2, 3, 4, 5, 6);
    let inverse = m.try_inverse().unwrap();
    assert_eq!(
        inverse.coefficients(),
        [si(-2), si(1), part(3, 2), part(-1, 2), si(1), si(-2)]
    );
}

#[test]
fn inverse_round_trip() {
    let m = AffineTransformMatrix::new(
        part(3, 7),
        part(-2, 5),
        part(11, 3),
        part(1, 9),
        si(-100),
        part(17, 4),
    );
    let inverse = m.try_inverse().unwrap();
    let p = SvgPoint::new(part(22, 7), part(-355, 113));
    let image = ViewPortPos::from_svg_coords(p, m).unwrap();
    assert_eq!(image.to_svg_coords(inverse), Ok(p));
    let q = ViewPortPos::new(si(640), si(-480));
    let back = q.to_svg_coords(inverse).unwrap();
    assert_eq!(ViewPortPos::from_svg_coords(back, m), Ok(q));
    assert_eq!(inverse.try_inverse(), Ok(m));
}

#[test]
fn identity_scaled_by_zero_has_no_inverse() {
    let m = matrix(0, 0, 0, 0, 0, 0);
    assert_eq!(m.try_inverse(), Err(GeometryError::NonInvertibleTransform));
    let shifted = matrix(0, 0, 0, 0, 30, 40);
    assert_eq!(shifted.try_inverse(), Err(GeometryError::NonInvertibleTransform));
}

#[test]
fn element_without_height_has_no_inverse() {
    assert_eq!(matrix(2, 0, 0, 0, 5, 5).try_inverse(), Err(GeometryError::NonInvertibleTransform));
    assert_eq!(matrix(1, 2, 2, 4, 0, 0).try_inverse(), Err(GeometryError::NonInvertibleTransform));
}

#[test]
fn determinant_at_the_threshold() {
    let at = AffineTransformMatrix::new(part(1, 1i64 << 52), si(0), si(0), si(1), si(0), si(0));
    assert!(at.try_inverse().is_ok());
    let negative_at =
        AffineTransformMatrix::new(part(-1, 1i64 << 52), si(0), si(0), si(1), si(0), si(0));
    assert!(negative_at.try_inverse().is_ok());
    let below =
        AffineTransformMatrix::new(part(1, 1i64 << 53), si(0), si(0), si(1), si(0), si(0));
    assert_eq!(below.try_inverse(), Err(GeometryError::NonInvertibleTransform));
    let negative_below =
        AffineTransformMatrix::new(part(-1, 1i64 << 53), si(0), si(0), si(1), si(0), si(0));
    assert_eq!(negative_below.try_inverse(), Err(GeometryError::NonInvertibleTransform));
}

#[test]
fn inverse_reports_overflow() {
    let huge = Scalar::new(i64::MAX, 1).unwrap();
    let in_determinant = AffineTransformMatrix::new(huge, si(0), si(0), si(2), si(0), si(0));
    assert_eq!(in_determinant.try_inverse(), Err(GeometryError::Overflow));
    let in_translation = AffineTransformMatrix::new(si(1), si(0), si(0), si(2), huge, si(0));
    assert_eq!(in_translation.try_inverse(), Err(GeometryError::Overflow));
}
