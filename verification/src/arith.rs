//! Integer and real-number facts that the rational arithmetic rests on.

use vstd::prelude::*;

verus! {

/// Greatest common divisor of two natural numbers, by Euclid's recursion.
pub open spec fn gcd(a: nat, b: nat) -> nat
    decreases b,
{
    if b == 0 {
        a
    } else {
        gcd(b, a % b)
    }
}

/// `n / d` as a real number.
pub open spec fn ratio(n: int, d: int) -> real {
    n as real / d as real
}

/// The absolute value of an integer.
pub open spec fn abs_int(n: int) -> int {
    if n < 0 {
        -n
    } else {
        n
    }
}

/// The gcd of two numbers that are not both zero is positive.
pub proof fn lemma_gcd_positive(a: nat, b: nat)
    requires
        a > 0 || b > 0,
    ensures
        gcd(a, b) > 0,
    decreases b,
{
    if b != 0 {
        lemma_gcd_positive(b, a % b);
    }
}

/// The gcd is an integer combination of its arguments, and both arguments are
/// multiples of it. Returns the two coefficients and the two cofactors.
pub proof fn lemma_gcd_bezout(a: nat, b: nat) -> (r: (int, int, int, int))
    ensures
        r.0 * a + r.1 * b == gcd(a, b),
        a == r.2 * gcd(a, b),
        b == r.3 * gcd(a, b),
        r.2 >= 0,
        r.3 >= 0,
    decreases b,
{
    if b == 0 {
        assert(1 * a + 0 * b == a);
        if a == 0 {
            (1, 0, 0, 0)
        } else {
            (1, 0, 1, 0)
        }
    } else {
        let q = (a / b) as int;
        let m = (a % b) as int;
        let g = gcd(a, b) as int;
        assert(a == q * b + m) by (nonlinear_arith)
            requires
                q == (a / b) as int,
                m == (a % b) as int,
                b > 0,
        ;
        let (x, y, s, t) = lemma_gcd_bezout(b, a % b);
        assert(y * a + (x - y * q) * b == g) by (nonlinear_arith)
            requires
                x * b + y * m == g,
                a == q * b + m,
        ;
        assert(a == (q * s + t) * g) by (nonlinear_arith)
            requires
                a == q * b + m,
                b == s * g,
                m == t * g,
        ;
        assert(q * s + t >= 0) by (nonlinear_arith)
            requires
                q >= 0,
                s >= 0,
                t >= 0,
        ;
        (y, x - y * q, q * s + t, s)
    }
}

/// A fraction in lowest terms has the smallest denominator and the smallest
/// numerator, in magnitude, of all fractions of the same value.
pub proof fn lemma_lowest_terms_minimal(n: int, d: int, x: int, y: int, n1: int, d1: int)
    requires
        d >= 1,
        d1 >= 1,
        x * n + y * d == 1,
        n * d1 == n1 * d,
    ensures
        d <= d1,
        abs_int(n) <= abs_int(n1),
{
    let k = x * n1 + y * d1;
    assert(d1 == d * k) by (nonlinear_arith)
        requires
            x * n + y * d == 1,
            n * d1 == n1 * d,
            k == x * n1 + y * d1,
    {
        assert(d1 == (x * n + y * d) * d1);
        assert((x * n + y * d) * d1 == x * (n * d1) + y * d * d1);
        assert(x * (n1 * d) + y * d * d1 == d * (x * n1 + y * d1));
    }
    assert(n1 == n * k) by (nonlinear_arith)
        requires
            x * n + y * d == 1,
            n * d1 == n1 * d,
            k == x * n1 + y * d1,
    {
        assert(n1 == (x * n + y * d) * n1);
        assert((x * n + y * d) * n1 == x * n * n1 + y * (n1 * d));
        assert(x * n * n1 + y * (n * d1) == n * (x * n1 + y * d1));
    }
    assert(k >= 1) by (nonlinear_arith)
        requires
            d1 == d * k,
            d >= 1,
            d1 >= 1,
    ;
    assert(d <= d1 && abs_int(n) <= abs_int(n1)) by (nonlinear_arith)
        requires
            d1 == d * k,
            n1 == n * k,
            k >= 1,
            d >= 1,
    ;
}

/// Multiplication of integers agrees with multiplication of their real values.
pub proof fn lemma_real_of_product(a: int, b: int)
    by (nonlinear_arith)
    ensures
        (a as real) * (b as real) == (a * b) as real,
{
}

/// Two quotients are equal exactly when their cross products are.
proof fn lemma_quotients_equal(a: real, b: real, c: real, d: real)
    by (nonlinear_arith)
    requires
        b != 0real,
        d != 0real,
    ensures
        (a / b == c / d) <==> (a * d == c * b),
{
}

/// With positive denominators, quotients are ordered as their cross products.
proof fn lemma_quotients_ordered(a: real, b: real, c: real, d: real)
    by (nonlinear_arith)
    requires
        b > 0real,
        d > 0real,
    ensures
        (a / b < c / d) <==> (a * d < c * b),
        (a / b <= c / d) <==> (a * d <= c * b),
{
}

/// Sum and difference of two quotients over the common denominator.
proof fn lemma_quotient_sum(a: real, b: real, c: real, d: real)
    by (nonlinear_arith)
    requires
        b != 0real,
        d != 0real,
    ensures
        a / b + c / d == (a * d + c * b) / (b * d),
        a / b - c / d == (a * d - c * b) / (b * d),
{
}

/// The product of two quotients.
proof fn lemma_quotient_product(a: real, b: real, c: real, d: real)
    by (nonlinear_arith)
    requires
        b != 0real,
        d != 0real,
    ensures
        (a / b) * (c / d) == (a * c) / (b * d),
{
}

/// The quotient of two quotients.
proof fn lemma_quotient_quotient(a: real, b: real, c: real, d: real)
    by (nonlinear_arith)
    requires
        b != 0real,
        c != 0real,
        d != 0real,
    ensures
        (a / b) / (c / d) == (a * d) / (b * c),
{
}

/// A common factor of numerator and denominator cancels.
proof fn lemma_quotient_scaled(a: real, b: real, g: real)
    by (nonlinear_arith)
    requires
        b != 0real,
        g != 0real,
    ensures
        (a * g) / (b * g) == a / b,
{
}

/// A fraction with denominator one is its numerator.
pub proof fn lemma_ratio_whole(n: int)
    by (nonlinear_arith)
    ensures
        ratio(n, 1) == n as real,
{
}

/// A common factor of numerator and denominator does not change a
/// fraction.
pub proof fn lemma_ratio_scaled(n: int, d: int, g: int)
    requires
        d != 0,
        g != 0,
    ensures
        ratio(n * g, d * g) == ratio(n, d),
{
    lemma_real_of_product(n, g);
    lemma_real_of_product(d, g);
    lemma_quotient_scaled(n as real, d as real, g as real);
}

/// Two fractions are equal exactly when their cross products are.
pub proof fn lemma_ratio_equal(n: int, d: int, n1: int, d1: int)
    requires
        d != 0,
        d1 != 0,
    ensures
        (ratio(n, d) == ratio(n1, d1)) <==> (n * d1 == n1 * d),
{
    lemma_real_of_product(n, d1);
    lemma_real_of_product(n1, d);
    lemma_quotients_equal(n as real, d as real, n1 as real, d1 as real);
}

/// Fractions with positive denominators are ordered as their cross
/// products.
pub proof fn lemma_ratio_ordered(n: int, d: int, n1: int, d1: int)
    requires
        d > 0,
        d1 > 0,
    ensures
        (ratio(n, d) < ratio(n1, d1)) <==> (n * d1 < n1 * d),
        (ratio(n, d) <= ratio(n1, d1)) <==> (n * d1 <= n1 * d),
{
    lemma_real_of_product(n, d1);
    lemma_real_of_product(n1, d);
    lemma_quotients_ordered(n as real, d as real, n1 as real, d1 as real);
}

/// Sum and difference of two fractions.
pub proof fn lemma_ratio_sum(a: int, b: int, c: int, d: int)
    requires
        b != 0,
        d != 0,
    ensures
        ratio(a, b) + ratio(c, d) == ratio(a * d + c * b, b * d),
        ratio(a, b) - ratio(c, d) == ratio(a * d - c * b, b * d),
{
    lemma_real_of_product(a, d);
    lemma_real_of_product(c, b);
    lemma_real_of_product(b, d);
    lemma_quotient_sum(a as real, b as real, c as real, d as real);
}

/// The product of two fractions.
pub proof fn lemma_ratio_product(a: int, b: int, c: int, d: int)
    requires
        b != 0,
        d != 0,
    ensures
        ratio(a, b) * ratio(c, d) == ratio(a * c, b * d),
{
    lemma_real_of_product(a, c);
    lemma_real_of_product(b, d);
    lemma_quotient_product(a as real, b as real, c as real, d as real);
}

/// The quotient of two fractions.
pub proof fn lemma_ratio_quotient(a: int, b: int, c: int, d: int)
    requires
        b != 0,
        c != 0,
        d != 0,
    ensures
        ratio(a, b) / ratio(c, d) == ratio(a * d, b * c),
{
    lemma_real_of_product(a, d);
    lemma_real_of_product(b, c);
    lemma_quotient_quotient(a as real, b as real, c as real, d as real);
}

} // verus!
