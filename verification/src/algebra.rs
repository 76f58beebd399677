//! Elementary identities of the real numbers. The solver proves each of
//! them alone; the laws of the crate are put together from them step by
//! step.

use vstd::prelude::*;

verus! {

/// Dividing by a number and multiplying by it again changes nothing.
pub(crate) proof fn lemma_quotient_cancel(n: real, m: real)
    by (nonlinear_arith)
    requires
        m != 0real,
    ensures
        (n / m) * m == n,
{
}

/// Multiplying by a number and dividing by it again changes nothing.
pub(crate) proof fn lemma_product_quotient(x: real, s: real)
    by (nonlinear_arith)
    requires
        s != 0real,
    ensures
        (x * s) / s == x,
{
}

/// Dividing a number by its quotient with `s` gives `s`.
pub(crate) proof fn lemma_quotient_of_quotient(x: real, s: real)
    by (nonlinear_arith)
    requires
        x != 0real,
        s != 0real,
    ensures
        x / s != 0real,
        x / (x / s) == s,
{
}

/// Dividing and then multiplying is multiplying by the quotient.
pub(crate) proof fn lemma_quotient_times(n: real, d: real, p: real)
    by (nonlinear_arith)
    requires
        d != 0real,
    ensures
        n / d * p == n * (p / d),
{
}

/// The quotient of a number by a positive one has the sign of the number.
pub(crate) proof fn lemma_quotient_sign(a: real, b: real)
    by (nonlinear_arith)
    requires
        b > 0real,
    ensures
        a >= 0real ==> a / b >= 0real,
        a > 0real ==> a / b > 0real,
        a == 0real ==> a / b == 0real,
        a < 0real ==> a / b < 0real,
{
}

/// A factor that is not zero cancels from both sides of an equation.
pub(crate) proof fn lemma_cancel_factor(s: real, x: real, m: real)
    by (nonlinear_arith)
    requires
        m != 0real,
        s * m == x * m,
    ensures
        s == x,
{
}

/// Multiplication distributes over a sum and over a difference.
pub(crate) proof fn lemma_distribute(a: real, b: real, m: real)
    by (nonlinear_arith)
    ensures
        m * (a + b) == m * a + m * b,
        m * (a - b) == m * a - m * b,
        (a + b) * m == a * m + b * m,
        (a - b) * m == a * m - b * m,
        m * (-(a - b)) == -(m * a) + m * b,
{
}

/// Multiplication distributes over a sum of three.
pub(crate) proof fn lemma_distribute3(a: real, b: real, c: real, m: real)
    by (nonlinear_arith)
    ensures
        (a + b + c) * m == a * m + b * m + c * m,
        m * (a + b + c) == m * a + m * b + m * c,
{
}

/// A product of three factors does not depend on their order or grouping.
pub(crate) proof fn lemma_triple(a: real, b: real, c: real)
    by (nonlinear_arith)
    ensures
        a * (b * c) == (a * b) * c,
        a * (b * c) == b * (a * c),
        a * (b * c) == c * (a * b),
        a * (b * c) == (b * a) * c,
        a * (b * c) == (a * c) * b,
        a * (b * c) == c * (b * a),
        a * (b * c) == a * (c * b),
        a * (b * c) == b * (c * a),
        a * (b * c) == (c * b) * a,
{
}

/// A sign moves out of a product.
pub(crate) proof fn lemma_negated_factor(a: real, b: real)
    by (nonlinear_arith)
    ensures
        (-a) * b == -(a * b),
        a * (-b) == -(a * b),
{
}

/// A product with a factor of zero is zero.
pub(crate) proof fn lemma_zero_factor(a: real, b: real)
    by (nonlinear_arith)
    requires
        a == 0real,
    ensures
        a * b == 0real,
        b * a == 0real,
{
}

/// The factors of a product that is not zero are not zero.
pub(crate) proof fn lemma_nonzero_factors(a: real, b: real)
    by (nonlinear_arith)
    ensures
        a * b != 0real <==> a != 0real && b != 0real,
{
}

/// A number that is not negative, grown by a fraction of itself that is at
/// least minus one, is not negative.
pub(crate) proof fn lemma_grown_extent(extent: real, zoom: real)
    by (nonlinear_arith)
    requires
        extent >= 0real,
        zoom >= -1real,
    ensures
        extent + extent * zoom >= 0real,
{
}

} // verus!
