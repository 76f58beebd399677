use panzoom::decimal::to_decimal_string;
use panzoom::scalar::Scalar;

fn frac(n: i64, d: i64) -> Scalar {
    Scalar::new(n, d).unwrap()
}

#[test]
fn scalar_new_reduces_to_lowest_terms() {
    assert_eq!(frac(6, -4).to_fraction(), (-3, 2));
    assert_eq!(frac(-6, -4).to_fraction(), (3, 2));
    assert_eq!(frac(0, -7).to_fraction(), (0, 1));
    assert_eq!(frac(6, 4), frac(3, 2));
}

#[test]
fn scalar_new_rejects_zero_denominator() {
    assert!(Scalar::new(1, 0).is_none());
    assert!(Scalar::new(0, 0).is_none());
}

#[test]
fn scalar_new_at_the_limits() {
    assert_eq!(frac(i64::MAX, 1).to_fraction(), (i64::MAX, 1));
    assert_eq!(frac(-i64::MAX, 1).to_fraction(), (-i64::MAX, 1));
    assert_eq!(frac(1, i64::MAX).to_fraction(), (1, i64::MAX));
    assert!(Scalar::new(i64::MIN, 1).is_none());
    assert!(Scalar::new(1, i64::MIN).is_none());
    assert_eq!(frac(i64::MIN, 2).to_fraction(), (i64::MIN / 2, 1));
    assert_eq!(frac(i64::MIN, i64::MIN).to_fraction(), (1, 1));
    assert_eq!(frac(3, i64::MIN + 1).to_fraction(), (-3, i64::MAX));
}

#[test]
fn scalar_from_int_zero_and_one() {
    assert_eq!(Scalar::from_int(-5).to_fraction(), (-5, 1));
    assert_eq!(Scalar::from_int(i32::MIN).to_fraction(), (i32::MIN as i64, 1));
    assert_eq!(Scalar::zero().to_fraction(), (0, 1));
    assert_eq!(Scalar::one().to_fraction(), (1, 1));
}

#[test]
fn scalar_sum_difference_product_quotient() {
    let a = frac(1, 3);
    let b = frac(1, 6);
    assert_eq!(a.checked_add(b), Some(frac(1, 2)));
    assert_eq!(a.checked_sub(b), Some(frac(1, 6)));
    assert_eq!(b.checked_sub(a), Some(frac(-1, 6)));
    assert_eq!(a.checked_mul(b), Some(frac(1, 18)));
    assert_eq!(a.checked_div(b), Some(Scalar::from_int(2)));
    assert_eq!(a.checked_div(frac(-1, 6)), Some(Scalar::from_int(-2)));
    assert_eq!(a.add(b), Ok(frac(1, 2)));
    assert_eq!(a.sub(b), Ok(frac(1, 6)));
    assert_eq!(a.mul(b), Ok(frac(1, 18)));
    assert_eq!(a.div(b), Ok(Scalar::from_int(2)));
}

#[test]
fn scalar_division_by_zero() {
    let a = frac(1, 3);
    assert_eq!(a.checked_div(Scalar::zero()), None);
    assert_eq!(a.div(Scalar::zero()), Err(panzoom::GeometryError::DivisionByZero));
    assert_eq!(Scalar::zero().div(a), Ok(Scalar::zero()));
}

#[test]
fn scalar_overflow_is_reported() {
    let big = frac(i64::MAX, 1);
    let tiny = frac(1, i64::MAX);
    assert_eq!(big.checked_add(Scalar::one()), None);
    assert_eq!(big.add(Scalar::one()), Err(panzoom::GeometryError::Overflow));
    assert_eq!(big.neg().sub(Scalar::one()), Err(panzoom::GeometryError::Overflow));
    assert_eq!(big.mul(Scalar::from_int(2)), Err(panzoom::GeometryError::Overflow));
    assert_eq!(tiny.mul(frac(1, 2)), Err(panzoom::GeometryError::Overflow));
    assert_eq!(big.div(tiny), Err(panzoom::GeometryError::Overflow));
    assert_eq!(tiny.add(Scalar::one()), Err(panzoom::GeometryError::Overflow));
}

#[test]
fn scalar_results_that_fit_after_reduction() {
    let big = frac(i64::MAX, 1);
    let tiny = frac(1, i64::MAX);
    assert_eq!(big.mul(tiny), Ok(Scalar::one()));
    assert_eq!(big.div(big), Ok(Scalar::one()));
    assert_eq!(big.sub(big), Ok(Scalar::zero()));
    assert_eq!(big.add(big.neg()), Ok(Scalar::zero()));
    assert_eq!(frac(i64::MAX - 1, 2).add(frac(i64::MAX - 1, 2)), Ok(frac(i64::MAX - 1, 1)));
}

#[test]
fn scalar_sign_and_magnitude() {
    assert_eq!(frac(3, 4).neg(), frac(-3, 4));
    assert_eq!(Scalar::zero().neg(), Scalar::zero());
    assert_eq!(frac(-3, 4).abs(), frac(3, 4));
    assert_eq!(frac(3, 4).abs(), frac(3, 4));
    assert!(frac(-1, 1000).is_negative());
    assert!(!Scalar::zero().is_negative());
    assert!(!frac(1, 1000).is_negative());
    assert!(Scalar::zero().is_zero());
    assert!(!frac(1, i64::MAX).is_zero());
}

#[test]
fn scalar_order() {
    let third = frac(1, 3);
    let half = frac(1, 2);
    assert!(third.lt(&half));
    assert!(!half.lt(&third));
    assert!(!half.lt(&half));
    assert!(half.le(&half));
    assert!(third.le(&half));
    assert!(!half.le(&third));
    assert!(frac(-1, 2).lt(&frac(-1, 3)));
    assert!(frac(i64::MAX, 1).neg().lt(&frac(i64::MAX, 1)));
    assert!(frac(i64::MAX - 1, i64::MAX).lt(&Scalar::one()));
    assert!(half.equals(&frac(2, 4)));
    assert!(!half.equals(&third));
    assert_eq!(third.max(half), half);
    assert_eq!(half.max(third), half);
    assert_eq!(frac(-1, 2).max(Scalar::zero()), Scalar::zero());
}

#[test]
fn decimal_text_of_whole_numbers() {
    assert_eq!(to_decimal_string(Scalar::zero()), "0");
    assert_eq!(to_decimal_string(Scalar::from_int(7)), "7");
    assert_eq!(to_decimal_string(Scalar::from_int(-100)), "-100");
    assert_eq!(to_decimal_string(Scalar::from_int(1234567890)), "1234567890");
    assert_eq!(to_decimal_string(frac(i64::MAX, 1)), "9223372036854775807");
}

#[test]
fn decimal_text_of_fractions() {
    assert_eq!(to_decimal_string(frac(1, 2)), "0.5");
    assert_eq!(to_decimal_string(frac(-1, 4)), "-0.25");
    assert_eq!(to_decimal_string(frac(21, 20)), "1.05");
    assert_eq!(to_decimal_string(frac(1, 1000000)), "0.000001");
    assert_eq!(to_decimal_string(frac(1001, 1000)), "1.001");
    assert_eq!(to_decimal_string(frac(123456789, 1000)), "123456.789");
}

#[test]
fn decimal_text_rounds_towards_zero() {
    assert_eq!(to_decimal_string(frac(1, 3)), "0.333333");
    assert_eq!(to_decimal_string(frac(2, 3)), "0.666666");
    assert_eq!(to_decimal_string(frac(-2, 3)), "-0.666666");
    assert_eq!(to_decimal_string(frac(1, 10000000)), "0");
    assert_eq!(to_decimal_string(frac(-1, 10000000)), "0");
    assert_eq!(to_decimal_string(frac(19999999, 10000000)), "1.999999");
}
