//! Exact rational numbers: the scalar type of every coordinate, length and
//! scale factor in this crate.

use vstd::prelude::*;
use vstd::arithmetic::div_mod::lemma_div_by_multiple;
use crate::arith::{
    gcd, lemma_gcd_bezout, lemma_gcd_positive, lemma_lowest_terms_minimal, lemma_ratio_equal,
    lemma_ratio_ordered, lemma_ratio_product, lemma_ratio_quotient, lemma_ratio_scaled,
    lemma_ratio_sum, lemma_ratio_whole, ratio,
};
use crate::error::GeometryError;

verus! {

/// The largest magnitude that a numerator or a denominator can have.
pub open spec fn limit() -> int {
    0x7fff_ffff_ffff_ffff
}

/// Whether `n / d` is a fraction that a [`Scalar`] can hold.
pub open spec fn in_range(n: int, d: int) -> bool {
    -limit() <= n <= limit() && 1 <= d <= limit()
}

/// Whether the real number `v` is the ratio of two integers within the
/// limit, that is, whether a [`Scalar`] of that value exists.
pub open spec fn representable(v: real) -> bool {
    exists|n: int, d: int| in_range(n, d) && #[trigger] ratio(n, d) == v
}

/// `x * n + y * d`.
pub open spec fn combination(x: int, n: int, y: int, d: int) -> int {
    x * n + y * d
}

/// Whether `n` and `d` have no common factor, stated as the existence of an
/// integer combination of them that equals one.
pub open spec fn coprime(n: int, d: int) -> bool {
    exists|x: int, y: int| #[trigger] combination(x, n, y, d) == 1
}

/// Whether `r` is the outcome of computing the real number `v` exactly: the
/// scalar of value `v` where there is one, an overflow where there is none.
pub open spec fn exact(r: Result<Scalar, GeometryError>, v: real) -> bool {
    match r {
        Ok(s) => s@ == v && representable(v),
        Err(e) => e == GeometryError::Overflow && !representable(v),
    }
}

/// A rational number in lowest terms with a positive denominator.
#[derive(Clone, Copy, Debug, PartialEq, Eq, Structural)]
pub struct Scalar {
    num: i64,
    den: i64,
}

impl View for Scalar {
    type V = real;

    /// The number itself.
    closed spec fn view(&self) -> real {
        ratio(self.num as int, self.den as int)
    }
}

/// `a * b` computed without overflow.
fn wide_product(a: i64, b: i64) -> (p: i128)
    requires
        -limit() <= a,
        -limit() <= b,
    ensures
        p == a * b,
        -limit() * limit() <= p <= limit() * limit(),
{
    proof {
        let l = limit();
        assert(-l * l <= a * b <= l * l) by (nonlinear_arith)
            requires
                -l <= a <= l,
                -l <= b <= l,
                l >= 0,
        ;
    }
    (a as i128) * (b as i128)
}

/// Euclid's algorithm.
fn greatest_common_divisor(a: u128, b: u128) -> (g: u128)
    ensures
        g == gcd(a as nat, b as nat),
{
    let mut x: u128 = a;
    let mut y: u128 = b;
    while y != 0
        invariant
            gcd(x as nat, y as nat) == gcd(a as nat, b as nat),
        decreases y,
    {
        let r: u128 = x % y;
        x = y;
        y = r;
    }
    x
}

/// The product of two positive integers is positive.
proof fn lemma_product_positive(a: int, b: int)
    by (nonlinear_arith)
    requires
        a >= 1,
        b >= 1,
    ensures
        a * b >= 1,
{
}

/// The product of two integers that are not zero is not zero.
proof fn lemma_product_nonzero(a: int, b: int)
    by (nonlinear_arith)
    requires
        a != 0,
        b != 0,
    ensures
        a * b != 0,
{
}

impl Scalar {
    /// Lowest terms, positive denominator, and a numerator whose negation
    /// exists.
    #[verifier::type_invariant]
    pub closed spec fn wf(self) -> bool {
        &&& 1 <= self.den
        &&& -limit() <= self.num
        &&& coprime(self.num as int, self.den as int)
    }

    /// Every scalar's value is representable.
    pub proof fn lemma_representable(self)
        requires
            self.wf(),
        ensures
            representable(self@),
    {
        assert(in_range(self.num as int, self.den as int));
    }

    /// Two scalars of the same value are the same scalar.
    pub proof fn lemma_unique(self, other: Scalar)
        requires
            self.wf(),
            other.wf(),
        ensures
            (self@ == other@) <==> self == other,
    {
        if self@ == other@ {
            let (n, d) = (self.num as int, self.den as int);
            let (n1, d1) = (other.num as int, other.den as int);
            lemma_ratio_equal(n, d, n1, d1);
            let (x, y) = choose|x: int, y: int| #[trigger] combination(x, n, y, d) == 1;
            let (x1, y1) = choose|x: int, y: int| #[trigger] combination(x, n1, y, d1) == 1;
            lemma_lowest_terms_minimal(n, d, x, y, n1, d1);
            lemma_lowest_terms_minimal(n1, d1, x1, y1, n, d);
            assert(d == d1);
            assert(n == n1) by (nonlinear_arith)
                requires
                    n * d1 == n1 * d,
                    d == d1,
                    d >= 1,
            ;
        }
    }

    /// The scalar `num / den`, unless `den` is zero or the fraction in lowest
    /// terms does not fit.
    pub fn new(num: i64, den: i64) -> (r: Option<Scalar>)
        ensures
            r matches Some(s) ==> s@ == ratio(num as int, den as int),
            r is Some <==> den != 0 && representable(ratio(num as int, den as int)),
    {
        if den == 0 {
            return None;
        }
        let n: i128 = num as i128;
        let d: i128 = den as i128;
        if d < 0 {
            proof {
                lemma_ratio_scaled(num as int, den as int, -1);
            }
            Scalar::reduced(-n, -d)
        } else {
            Scalar::reduced(n, d)
        }
    }

    /// The scalar of an integer.
    pub fn from_int(n: i32) -> (r: Scalar)
        ensures
            r@ == n as real,
    {
        proof {
            assert(combination(0, n as int, 1, 1) == 1);
            lemma_ratio_whole(n as int);
        }
        Scalar { num: n as i64, den: 1 }
    }

    /// Zero.
    pub fn zero() -> (r: Scalar)
        ensures
            r@ == 0real,
    {
        Scalar::from_int(0)
    }

    /// One.
    pub fn one() -> (r: Scalar)
        ensures
            r@ == 1real,
    {
        Scalar::from_int(1)
    }

    /// Numerator and denominator of the number in lowest terms, the
    /// denominator positive.
    pub fn to_fraction(&self) -> (r: (i64, i64))
        ensures
            ratio(r.0 as int, r.1 as int) == self@,
            in_range(r.0 as int, r.1 as int),
            coprime(r.0 as int, r.1 as int),
    {
        proof {
            use_type_invariant(self);
        }
        (self.num, self.den)
    }

    /// Whether the number is zero.
    pub fn is_zero(&self) -> (b: bool)
        ensures
            b == (self@ == 0real),
    {
        proof {
            use_type_invariant(self);
            lemma_ratio_equal(self.num as int, self.den as int, 0, 1);
            lemma_ratio_whole(0);
        }
        self.num == 0
    }

    /// Whether the number is below zero.
    pub fn is_negative(&self) -> (b: bool)
        ensures
            b == (self@ < 0real),
    {
        proof {
            use_type_invariant(self);
            lemma_ratio_ordered(self.num as int, self.den as int, 0, 1);
            lemma_ratio_whole(0);
        }
        self.num < 0
    }

    /// Whether the two numbers are equal.
    pub fn equals(&self, other: &Scalar) -> (b: bool)
        ensures
            b == (self@ == other@),
    {
        proof {
            use_type_invariant(self);
            use_type_invariant(other);
            self.lemma_unique(*other);
        }
        self.num == other.num && self.den == other.den
    }

    /// Whether `self` is less than `other`.
    pub fn lt(&self, other: &Scalar) -> (b: bool)
        ensures
            b == (self@ < other@),
    {
        proof {
            use_type_invariant(self);
            use_type_invariant(other);
            lemma_ratio_ordered(
                self.num as int,
                self.den as int,
                other.num as int,
                other.den as int,
            );
        }
        wide_product(self.num, other.den) < wide_product(other.num, self.den)
    }

    /// Whether `self` is at most `other`.
    pub fn le(&self, other: &Scalar) -> (b: bool)
        ensures
            b == (self@ <= other@),
    {
        proof {
            use_type_invariant(self);
            use_type_invariant(other);
            lemma_ratio_ordered(
                self.num as int,
                self.den as int,
                other.num as int,
                other.den as int,
            );
        }
        wide_product(self.num, other.den) <= wide_product(other.num, self.den)
    }

    /// The larger of the two numbers.
    pub fn max(self, other: Scalar) -> (r: Scalar)
        ensures
            r@ == (if self@ < other@ {
                other@
            } else {
                self@
            }),
    {
        if self.lt(&other) {
            other
        } else {
            self
        }
    }

    /// The number with its sign changed.
    pub fn neg(self) -> (r: Scalar)
        ensures
            r@ == -self@,
    {
        proof {
            use_type_invariant(self);
            let (n, d) = (self.num as int, self.den as int);
            let (x, y) = choose|x: int, y: int| #[trigger] combination(x, n, y, d) == 1;
            assert(combination(-x, -n, y, d) == 1) by (nonlinear_arith)
                requires
                    x * n + y * d == 1,
            ;
            lemma_ratio_sum(0, 1, n, d);
            assert(0 * d - n * 1 == -n);
            assert(1 * d == d);
        }
        Scalar { num: -self.num, den: self.den }
    }

    /// The magnitude of the number.
    pub fn abs(self) -> (r: Scalar)
        ensures
            r@ == (if self@ < 0real {
                -self@
            } else {
                self@
            }),
    {
        if self.is_negative() {
            self.neg()
        } else {
            self
        }
    }

    /// The exact sum, if it is representable.
    pub fn checked_add(self, rhs: Scalar) -> (r: Option<Scalar>)
        ensures
            r matches Some(s) ==> s@ == self@ + rhs@,
            r is Some <==> representable(self@ + rhs@),
    {
        proof {
            use_type_invariant(self);
            use_type_invariant(rhs);
            lemma_ratio_sum(self.num as int, self.den as int, rhs.num as int, rhs.den as int);
        }
        let n: i128 = wide_product(self.num, rhs.den) + wide_product(rhs.num, self.den);
        let d: i128 = wide_product(self.den, rhs.den);
        proof {
            lemma_product_positive(self.den as int, rhs.den as int);
        }
        Scalar::reduced(n, d)
    }

    /// The exact difference, if it is representable.
    pub fn checked_sub(self, rhs: Scalar) -> (r: Option<Scalar>)
        ensures
            r matches Some(s) ==> s@ == self@ - rhs@,
            r is Some <==> representable(self@ - rhs@),
    {
        proof {
            use_type_invariant(self);
            use_type_invariant(rhs);
            lemma_ratio_sum(self.num as int, self.den as int, rhs.num as int, rhs.den as int);
        }
        let n: i128 = wide_product(self.num, rhs.den) - wide_product(rhs.num, self.den);
        let d: i128 = wide_product(self.den, rhs.den);
        proof {
            lemma_product_positive(self.den as int, rhs.den as int);
        }
        Scalar::reduced(n, d)
    }

    /// The exact product, if it is representable.
    pub fn checked_mul(self, rhs: Scalar) -> (r: Option<Scalar>)
        ensures
            r matches Some(s) ==> s@ == self@ * rhs@,
            r is Some <==> representable(self@ * rhs@),
    {
        proof {
            use_type_invariant(self);
            use_type_invariant(rhs);
            lemma_ratio_product(
                self.num as int,
                self.den as int,
                rhs.num as int,
                rhs.den as int,
            );
        }
        let n: i128 = wide_product(self.num, rhs.num);
        let d: i128 = wide_product(self.den, rhs.den);
        proof {
            lemma_product_positive(self.den as int, rhs.den as int);
        }
        Scalar::reduced(n, d)
    }

    /// The exact quotient, if the divisor is not zero and the quotient is
    /// representable.
    pub fn checked_div(self, rhs: Scalar) -> (r: Option<Scalar>)
        ensures
            r matches Some(s) ==> s@ == self@ / rhs@,
            r is Some <==> rhs@ != 0real && representable(self@ / rhs@),
    {
        proof {
            use_type_invariant(self);
            use_type_invariant(rhs);
            lemma_ratio_equal(rhs.num as int, rhs.den as int, 0, 1);
            lemma_ratio_whole(0);
        }
        if rhs.num == 0 {
            return None;
        }
        proof {
            lemma_ratio_quotient(
                self.num as int,
                self.den as int,
                rhs.num as int,
                rhs.den as int,
            );
        }
        let n: i128 = wide_product(self.num, rhs.den);
        let d: i128 = wide_product(self.den, rhs.num);
        if d < 0 {
            proof {
                lemma_ratio_scaled(n as int, d as int, -1);
            }
            Scalar::reduced(-n, -d)
        } else {
            proof {
                lemma_product_nonzero(self.den as int, rhs.num as int);
            }
            Scalar::reduced(n, d)
        }
    }

    /// The exact sum, or an overflow.
    pub fn add(self, rhs: Scalar) -> (r: Result<Scalar, GeometryError>)
        ensures
            exact(r, self@ + rhs@),
    {
        match self.checked_add(rhs) {
            Some(s) => Ok(s),
            None => Err(GeometryError::Overflow),
        }
    }

    /// The exact difference, or an overflow.
    pub fn sub(self, rhs: Scalar) -> (r: Result<Scalar, GeometryError>)
        ensures
            exact(r, self@ - rhs@),
    {
        match self.checked_sub(rhs) {
            Some(s) => Ok(s),
            None => Err(GeometryError::Overflow),
        }
    }

    /// The exact product, or an overflow.
    pub fn mul(self, rhs: Scalar) -> (r: Result<Scalar, GeometryError>)
        ensures
            exact(r, self@ * rhs@),
    {
        match self.checked_mul(rhs) {
            Some(s) => Ok(s),
            None => Err(GeometryError::Overflow),
        }
    }

    /// The exact quotient; a division by zero where `rhs` is zero, else an
    /// overflow where the quotient is not representable.
    pub fn div(self, rhs: Scalar) -> (r: Result<Scalar, GeometryError>)
        ensures
            rhs@ == 0real ==> r == Err::<Scalar, GeometryError>(GeometryError::DivisionByZero),
            rhs@ != 0real ==> exact(r, self@ / rhs@),
    {
        if rhs.is_zero() {
            return Err(GeometryError::DivisionByZero);
        }
        match self.checked_div(rhs) {
            Some(s) => Ok(s),
            None => Err(GeometryError::Overflow),
        }
    }

    /// The scalar of value `n / d`, if there is one.
    fn reduced(n: i128, d: i128) -> (r: Option<Scalar>)
        requires
            1 <= d,
            -0x7fff_ffff_ffff_ffff_ffff_ffff_ffff_ffff <= n,
        ensures
            r matches Some(s) ==> s@ == ratio(n as int, d as int),
            r is Some <==> representable(ratio(n as int, d as int)),
    {
        let negative = n < 0;
        let magnitude: u128 = if negative {
            (-n) as u128
        } else {
            n as u128
        };
        let divisor: u128 = d as u128;
        let g: u128 = greatest_common_divisor(magnitude, divisor);
        let ghost (x, y, s, t) = lemma_gcd_bezout(magnitude as nat, divisor as nat);
        proof {
            lemma_gcd_positive(magnitude as nat, divisor as nat);
        }
        let q_num: u128 = magnitude / g;
        let q_den: u128 = divisor / g;
        let ghost n1: int = if negative {
            -s
        } else {
            s
        };
        let ghost x1: int = if negative {
            -x
        } else {
            x
        };
        proof {
            let gi = g as int;
            lemma_div_by_multiple(s, gi);
            lemma_div_by_multiple(t, gi);
            assert(q_num == s && q_den == t);
            assert(x * s + y * t == 1) by (nonlinear_arith)
                requires
                    x * magnitude + y * divisor == gi,
                    magnitude == s * gi,
                    divisor == t * gi,
                    gi > 0,
            {
                assert(x * (s * gi) + y * (t * gi) == (x * s + y * t) * gi);
            }
            assert(combination(x1, n1, y, t) == 1) by (nonlinear_arith)
                requires
                    x * s + y * t == 1,
                    (x1 == x && n1 == s) || (x1 == -x && n1 == -s),
            ;
            assert(n == n1 * gi && d == t * gi) by (nonlinear_arith)
                requires
                    magnitude == s * gi,
                    divisor == t * gi,
                    d == divisor,
                    (n == magnitude && n1 == s) || (n == -magnitude && n1 == -s),
            ;
            assert(t >= 1) by (nonlinear_arith)
                requires
                    d == t * gi,
                    d >= 1,
                    gi > 0,
            ;
            lemma_ratio_scaled(n1, t, gi);
            assert(ratio(n as int, d as int) == ratio(n1, t));
            if representable(ratio(n1, t)) {
                let (n2, d2) = choose|n2: int, d2: int|
                    in_range(n2, d2) && #[trigger] ratio(n2, d2) == ratio(n1, t);
                lemma_ratio_equal(n1, t, n2, d2);
                lemma_lowest_terms_minimal(n1, t, x1, y, n2, d2);
                assert(in_range(n1, t));
            }
        }
        if q_num <= 0x7fff_ffff_ffff_ffff && q_den <= 0x7fff_ffff_ffff_ffff {
            let num: i64 = if negative {
                -(q_num as i64)
            } else {
                q_num as i64
            };
            assert(in_range(n1, t));
            Some(Scalar { num, den: q_den as i64 })
        } else {
            assert(!in_range(n1, t));
            None
        }
    }
}

} // verus!
