//! Checked multiply-divide primitives with floor and ceiling rounding, and
//! the algebra of nested integer division.
//!
//! The products are formed at twice the input width, so they never overflow;
//! the ceiling is computed by the exact integer identity
//! `ceil(n / d) == floor((n + d - 1) / d)`, never through a native ceiling
//! intrinsic.

use vstd::arithmetic::div_mod::*;
use vstd::arithmetic::mul::*;
use vstd::prelude::*;

verus! {

/// Ceiling division of `n` by `d`, written through floor division:
/// for `d > 0` this equals the least integer at or above `n / d`.
pub open spec fn ceil_div(n: int, d: int) -> int {
    (n + d - 1) / d
}

/// `floor(a * b / c)`, with the product taken at double width so it cannot
/// overflow for any pair of inputs.
pub fn mul_div_floor(a: u64, b: u64, c: u64) -> (r: u64)
    requires
        c > 0,
        a * b / (c as int) <= u64::MAX,
    ensures
        r == a * b / (c as int),
{
    proof {
        lemma_mul_upper_bound(a as int, u64::MAX as int, b as int, u64::MAX as int);
    }
    let wide: u128 = (a as u128) * (b as u128);
    let q: u128 = wide / (c as u128);
    q as u64
}

/// `ceil(a * b / c)`, via the add-then-floor identity at double width: even
/// `numerator + denominator - 1` stays inside the wide type.
pub fn mul_div_ceil(a: u64, b: u64, c: u64) -> (r: u64)
    requires
        c > 0,
        ceil_div(a * b, c as int) <= u64::MAX,
    ensures
        r == ceil_div(a * b, c as int),
{
    proof {
        lemma_mul_upper_bound(a as int, u64::MAX as int, b as int, u64::MAX as int);
    }
    let wide: u128 = (a as u128) * (b as u128);
    let q: u128 = (wide + (c as u128 - 1)) / (c as u128);
    q as u64
}

/// For a positive numerator, the ceiling of a quotient is one more than the
/// floor applied to the predecessor of the numerator.
proof fn lemma_ceil_div_via_floor(n: int, d: int)
    requires
        n >= 1,
        d > 0,
    ensures
        ceil_div(n, d) == (n - 1) / d + 1,
{
    lemma_div_plus_one(n - 1, d);
}

/// Nested floor divisions collapse into one division by the product of the
/// divisors.
pub proof fn lemma_floor_div_nested(a: int, b: int, c: int)
    requires
        a >= 0,
        b > 0,
        c > 0,
    ensures
        a / b / c == a / (b * c),
{
    lemma_div_denominator(a, b, c);
}

/// Nested ceiling divisions collapse the same way as floor divisions do.
pub proof fn lemma_ceil_div_nested(a: int, b: int, c: int)
    requires
        a >= 0,
        b > 0,
        c > 0,
    ensures
        ceil_div(ceil_div(a, b), c) == ceil_div(a, b * c),
{
    lemma_mul_pos(b, c);
    if a == 0 {
        lemma_basic_div(b - 1, b);
        lemma_basic_div(c - 1, c);
        lemma_basic_div(b * c - 1, b * c);
    } else {
        lemma_ceil_div_via_floor(a, b);
        lemma_div_pos_is_pos(a - 1, b);
        lemma_ceil_div_via_floor((a - 1) / b + 1, c);
        lemma_ceil_div_via_floor(a, b * c);
        lemma_div_denominator(a - 1, b, c);
    }
}

/// The product of two positive integers is positive.
proof fn lemma_mul_pos(b: int, c: int)
    requires
        b > 0,
        c > 0,
    ensures
        b * c > 0,
        b <= b * c,
        c <= b * c,
{
    lemma_mul_inequality(1, c, b);
    lemma_mul_is_commutative(b, c);
    lemma_mul_inequality(1, b, c);
}

/// Nested ceiling division commutes in the order of the divisors: dividing by
/// `b` and then by `c` (rounding up both times) equals dividing by `c` and
/// then by `b`.
pub proof fn nested_div_commute(a: u64, b: u64, c: u64)
    requires
        b > 0,
        c > 0,
    ensures
        ceil_div(ceil_div(a as int, b as int), c as int) == ceil_div(
            ceil_div(a as int, c as int),
            b as int,
        ),
{
    lemma_ceil_div_nested(a as int, b as int, c as int);
    lemma_ceil_div_nested(a as int, c as int, b as int);
    lemma_mul_is_commutative(b as int, c as int);
}

/// Ceiling division is monotone in the numerator.
pub proof fn lemma_ceil_div_monotone(n1: int, n2: int, d: int)
    requires
        n1 <= n2,
        d > 0,
    ensures
        ceil_div(n1, d) <= ceil_div(n2, d),
{
    lemma_div_is_ordered(n1 + d - 1, n2 + d - 1, d);
}

/// The ceiling of a positive quotient is at least one.
pub proof fn lemma_ceil_div_pos(n: int, d: int)
    requires
        n >= 1,
        d > 0,
    ensures
        ceil_div(n, d) >= 1,
{
    lemma_div_is_ordered(d, n + d - 1, d);
    lemma_div_by_self(d);
}

/// Scaling by a fraction `num / d` with `num <= d` and rounding down never
/// exceeds the amount scaled.
pub proof fn lemma_div_scaled_le(a: int, num: int, d: int)
    requires
        0 <= a,
        0 <= num <= d,
        0 < d,
    ensures
        0 <= a * num / d <= a,
{
    lemma_mul_inequality(num, d, a);
    lemma_mul_is_commutative(num, a);
    lemma_mul_is_commutative(d, a);
    lemma_div_is_ordered(a * num, a * d, d);
    lemma_div_by_multiple(a, d);
    lemma_mul_nonnegative(a, num);
    lemma_div_pos_is_pos(a * num, d);
}

/// Scaling by a fraction `num / d` with `num <= d` and rounding up never
/// exceeds the amount scaled either: the quotient of `a * d` by `d` is exact,
/// so the ceiling adds nothing at the top.
pub proof fn lemma_ceil_div_scaled_le(a: int, num: int, d: int)
    requires
        0 <= a,
        0 <= num <= d,
        0 < d,
    ensures
        0 <= ceil_div(a * num, d) <= a,
{
    lemma_mul_inequality(num, d, a);
    lemma_mul_is_commutative(num, a);
    lemma_mul_is_commutative(d, a);
    lemma_ceil_div_monotone(a * num, a * d, d);
    lemma_hoist_over_denominator(d - 1, a, d as nat);
    lemma_basic_div(d - 1, d);
    lemma_mul_nonnegative(a, num);
    lemma_div_pos_is_pos(a * num + d - 1, d);
}

/// Multiplying a scaled fixed-point value (raw value `bits`, denominator
/// `scale`) by `x` and dividing by `y`, rounding up at each stage, done the
/// slow way: scale the whole raw value, divide, then round the result up to a
/// whole number.
pub open spec fn mul_div_ceil_slow(bits: int, x: int, y: int, scale: int) -> int {
    ceil_div(ceil_div(bits * x, y), scale)
}

/// The same computation done the fast way: split the fixed-point value into
/// its whole part `bits / scale` and fractional part `bits % scale`, clear
/// the fraction first, then divide by `y` rounding up.
pub open spec fn mul_div_ceil_fast(bits: int, x: int, y: int, scale: int) -> int {
    ceil_div((bits / scale) * x + ceil_div((bits % scale) * x, scale), y)
}

/// The two ways of computing a fixed-point multiply-divide with ceiling
/// rounding agree, for every raw value, multiplier, divisor and scale.
pub proof fn mul_div_ceil_of_frac(bits: int, x: int, y: int, scale: int)
    requires
        bits >= 0,
        x >= 0,
        y > 0,
        scale > 0,
    ensures
        mul_div_ceil_slow(bits, x, y, scale) == mul_div_ceil_fast(bits, x, y, scale),
{
    let whole = bits / scale;
    let frac = bits % scale;
    lemma_div_pos_is_pos(bits, scale);
    lemma_mod_bound(bits, scale);
    lemma_mul_nonnegative(whole, x);
    lemma_mul_nonnegative(frac, x);
    lemma_mul_nonnegative(bits, x);
    // Clearing the fraction first equals one ceiling division by the scale:
    // whole * x + ceil_div(frac * x, scale) == ceil_div(bits * x, scale).
    assert(whole * x + ceil_div(frac * x, scale) == ceil_div(bits * x, scale)) by {
        lemma_hoist_over_denominator(frac * x + scale - 1, whole * x, scale as nat);
        lemma_fundamental_div_mod(bits, scale);
        assert((scale * whole + frac) * x == (whole * x) * scale + frac * x) by (nonlinear_arith);
    }
    // With that, the two paths are nested ceiling divisions of `bits * x` by
    // `y` and `scale` in the two orders.
    lemma_ceil_div_nested(bits * x, y, scale);
    lemma_ceil_div_nested(bits * x, scale, y);
    lemma_mul_is_commutative(y, scale);
}

/// Nested floor division commutes in the order of the divisors.
pub proof fn nested_floor_div_commute(a: u64, b: u64, c: u64)
    requires
        b > 0,
        c > 0,
    ensures
        a as int / b as int / c as int == a as int / c as int / b as int,
{
    lemma_floor_div_nested(a as int, b as int, c as int);
    lemma_floor_div_nested(a as int, c as int, b as int);
    lemma_mul_is_commutative(b as int, c as int);
}

} // verus!
