//! Decimal notation for rational numbers.

use vstd::prelude::*;
use crate::arith::{
    lemma_ratio_ordered, lemma_ratio_sum, lemma_ratio_whole, lemma_real_of_product, ratio,
};
use crate::model::abs_real;
use crate::scalar::Scalar;

verus! {

/// `floor(n / d * m)` for natural numbers is the quotient of `n * m` by `d`.
pub proof fn lemma_floor_of_ratio(n: int, d: int, m: int)
    requires
        n >= 0,
        d > 0,
        m > 0,
    ensures
        (ratio(n, d) * (m as real)).floor() == (n * m) / d,
{
    let q = (n * m) / d;
    let r = (n * m) % d;
    assert(n * m == q * d + r && 0 <= r < d) by (nonlinear_arith)
        requires
            q == (n * m) / d,
            r == (n * m) % d,
            d > 0,
    ;
    lemma_real_of_product(n, m);
    lemma_real_of_product(q, d);
    let v = ratio(n, d) * (m as real);
    assert(v * (d as real) == (n as real) * (m as real)) by (nonlinear_arith)
        requires
            v == ((n as real) / (d as real)) * (m as real),
            d as real != 0real,
    ;
    assert((q as real) <= v < (q as real) + 1real) by (nonlinear_arith)
        requires
            v * (d as real) == (q as real) * (d as real) + (r as real),
            0real <= r as real,
            (r as real) < (d as real),
    ;
}

/// The number of digits after the decimal point to which numbers are
/// written.
pub open spec fn places() -> nat {
    6
}

/// Ten to the power of [`places`].
pub open spec fn unit() -> int {
    1_000_000
}

/// The character of a decimal digit.
pub open spec fn digit(d: int) -> char {
    if d == 0 {
        '0'
    } else if d == 1 {
        '1'
    } else if d == 2 {
        '2'
    } else if d == 3 {
        '3'
    } else if d == 4 {
        '4'
    } else if d == 5 {
        '5'
    } else if d == 6 {
        '6'
    } else if d == 7 {
        '7'
    } else if d == 8 {
        '8'
    } else {
        '9'
    }
}

/// The decimal digits of a natural number, without leading zeros.
pub open spec fn digits(n: nat) -> Seq<char>
    decreases n,
{
    if n < 10 {
        seq![digit(n as int)]
    } else {
        digits(n / 10).push(digit((n % 10) as int))
    }
}

/// The last `count` decimal digits of `n`, with leading zeros where `n` has
/// fewer.
pub open spec fn padded_digits(n: nat, count: nat) -> Seq<char>
    decreases count,
{
    if count == 0 {
        Seq::<char>::empty()
    } else {
        padded_digits(n / 10, (count - 1) as nat).push(digit((n % 10) as int))
    }
}

/// The digits of the fraction `n / 10^count`, without trailing zeros.
pub open spec fn fraction_digits(n: nat, count: nat) -> Seq<char>
    decreases count,
{
    if count == 0 {
        Seq::<char>::empty()
    } else if n % 10 == 0 {
        fraction_digits(n / 10, (count - 1) as nat)
    } else {
        padded_digits(n, count)
    }
}

/// The magnitude of `v` in millionths, rounded towards zero.
pub open spec fn millionths(v: real) -> int {
    (abs_real(v) * (unit() as real)).floor()
}

/// The number `v` in decimal notation, rounded towards zero to six places:
/// a minus sign where the rounded number is negative, the digits of the
/// whole part and, where the fraction is not zero, a point and the digits of
/// the fraction without trailing zeros.
pub open spec fn decimal_text(v: real) -> Seq<char> {
    let scaled = millionths(v);
    let sign = if v < 0real && scaled != 0 {
        seq!['-']
    } else {
        Seq::<char>::empty()
    };
    let whole = digits((scaled / unit()) as nat);
    let fraction = if scaled % unit() == 0 {
        Seq::<char>::empty()
    } else {
        seq!['.'] + fraction_digits((scaled % unit()) as nat, places())
    };
    sign + whole + fraction
}

/// Appends `c` to `text`, by `String::push`, which appends the given
/// character to the end of the string.
#[verifier::external_body]
pub(crate) fn push_char(text: &mut String, c: char)
    ensures
        final(text)@ == old(text)@.push(c),
{
    text.push(c)
}

/// The character of the decimal digit `d`.
fn digit_char(d: u8) -> (c: char)
    requires
        d < 10,
    ensures
        c == digit(d as int),
{
    if d == 0 {
        '0'
    } else if d == 1 {
        '1'
    } else if d == 2 {
        '2'
    } else if d == 3 {
        '3'
    } else if d == 4 {
        '4'
    } else if d == 5 {
        '5'
    } else if d == 6 {
        '6'
    } else if d == 7 {
        '7'
    } else if d == 8 {
        '8'
    } else {
        '9'
    }
}

/// Appends the decimal digits of `n`.
fn push_digits(text: &mut String, n: u128)
    ensures
        final(text)@ == old(text)@ + digits(n as nat),
    decreases n,
{
    if n >= 10 {
        push_digits(text, n / 10);
    }
    push_char(text, digit_char((n % 10) as u8));
    proof {
        if n >= 10 {
            assert(old(text)@ + digits(n as nat) =~= (old(text)@ + digits((n / 10) as nat)).push(
                digit((n % 10) as int),
            ));
        } else {
            assert(old(text)@ + digits(n as nat) =~= old(text)@.push(digit(n as int)));
        }
    }
}

/// Appends the last `count` decimal digits of `n`.
fn push_padded_digits(text: &mut String, n: u128, count: u32)
    ensures
        final(text)@ == old(text)@ + padded_digits(n as nat, count as nat),
    decreases count,
{
    if count == 0 {
        assert(old(text)@ + padded_digits(n as nat, 0) =~= old(text)@);
    } else {
        push_padded_digits(text, n / 10, count - 1);
        push_char(text, digit_char((n % 10) as u8));
        proof {
            assert(old(text)@ + padded_digits(n as nat, count as nat) =~= (old(text)@
                + padded_digits((n / 10) as nat, (count - 1) as nat)).push(
                digit((n % 10) as int),
            ));
        }
    }
}

/// Appends `v` in decimal notation.
pub fn push_decimal(text: &mut String, v: Scalar)
    ensures
        final(text)@ == old(text)@ + decimal_text(v@),
{
    let (num, den) = v.to_fraction();
    let negative = num < 0;
    let magnitude: u128 = if negative {
        (-(num as i128)) as u128
    } else {
        num as u128
    };
    proof {
        let n = num as int;
        let d = den as int;
        lemma_ratio_ordered(n, d, 0, 1);
        lemma_ratio_whole(0);
        if negative {
            lemma_negated_ratio(n, d);
        }
        assert(abs_real(v@) == ratio(magnitude as int, d));
        lemma_floor_of_ratio(magnitude as int, d, unit());
        assert(magnitude * 1_000_000 <= 0x7fff_ffff_ffff_ffff * 1_000_000) by (nonlinear_arith)
            requires
                magnitude <= 0x7fff_ffff_ffff_ffff,
        ;
    }
    let scaled: u128 = magnitude * 1_000_000 / (den as u128);
    assert(scaled == millionths(v@));
    let whole: u128 = scaled / 1_000_000;
    let fraction: u128 = scaled % 1_000_000;
    if negative && scaled != 0 {
        push_char(text, '-');
    }
    let ghost signed = text@;
    push_digits(text, whole);
    if fraction != 0 {
        push_char(text, '.');
        let ghost pointed = text@;
        let mut rest: u128 = fraction;
        let mut count: u32 = 6;
        while count > 0 && rest % 10 == 0
            invariant
                fraction_digits(rest as nat, count as nat) == fraction_digits(
                    fraction as nat,
                    places(),
                ),
                count <= 6,
            decreases count,
        {
            rest = rest / 10;
            count = count - 1;
        }
        push_padded_digits(text, rest, count);
        proof {
            assert(fraction_digits(rest as nat, count as nat) == padded_digits(
                rest as nat,
                count as nat,
            ));
            assert(text@ =~= old(text)@ + decimal_text(v@));
        }
    } else {
        proof {
            assert(text@ =~= old(text)@ + decimal_text(v@));
        }
    }
}

/// `v` in decimal notation, rounded towards zero to six places.
pub fn to_decimal_string(v: Scalar) -> (text: String)
    ensures
        text@ == decimal_text(v@),
{
    let mut text = String::new();
    push_decimal(&mut text, v);
    assert(Seq::<char>::empty() + decimal_text(v@) =~= decimal_text(v@));
    text
}

/// The negative of a fraction is the fraction of the negated numerator.
proof fn lemma_negated_ratio(n: int, d: int)
    requires
        d != 0,
    ensures
        -ratio(n, d) == ratio(-n, d),
{
    lemma_ratio_sum(0, 1, n, d);
    lemma_ratio_whole(0);
    assert(0 * d - n * 1 == -n);
    assert(1 * d == d);
}

} // verus!
