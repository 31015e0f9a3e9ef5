//! Fixed-point arithmetic helpers.
//!
//! A quantity of 1.0 (a certain price, one whole share, one whole token in an
//! account balance) is represented as `SCALE` micro-units.  Division helpers
//! are written over non-negative operands so that executable behaviour and the
//! mathematical model agree exactly.

use vstd::prelude::*;

verus! {

/// Micro-units in one whole unit.
pub const SCALE: i64 = 1_000_000;

/// Truncating division (rounds toward zero), the rounding used for signed
/// fixed-point quantities such as profit-and-loss amounts.
pub open spec fn div_trunc(a: int, b: int) -> int {
    if a >= 0 {
        a / b
    } else {
        -((-a) / b)
    }
}

/// Ceiling division of non-negative `a` by positive `b`.
pub open spec fn div_up(a: int, b: int) -> int {
    (a + b - 1) / b
}

/// Floor division of a non-negative value by a positive one.
pub fn udiv_i64(a: i64, b: i64) -> (q: i64)
    requires
        0 <= a,
        1 <= b,
    ensures
        q == a as int / b as int,
        0 <= q <= a,
{
    let q64: u64 = (a as u64) / (b as u64);
    proof {
        vstd::arithmetic::div_mod::lemma_div_is_ordered_by_denominator(a as int, 1, b as int);
        vstd::arithmetic::div_mod::lemma_div_pos_is_pos(a as int, b as int);
    }
    q64 as i64
}

/// Truncating division with a positive divisor.
pub fn div_trunc_i64(a: i64, b: i64) -> (q: i64)
    requires
        i64::MIN < a,
        1 <= b,
    ensures
        q == div_trunc(a as int, b as int),
{
    if a >= 0 {
        udiv_i64(a, b)
    } else {
        let n = udiv_i64(-a, b);
        -n
    }
}

/// Ceiling division of a non-negative value by a positive one.
pub fn div_up_i64(a: i64, b: i64) -> (q: i64)
    requires
        0 <= a,
        1 <= b,
        a + b - 1 <= i64::MAX,
    ensures
        q == div_up(a as int, b as int),
        0 <= q <= a,
{
    let q = udiv_i64(a + (b - 1), b);
    proof {
        lemma_div_up_le(a as int, b as int);
        lemma_div_up_nonneg(a as int, b as int);
    }
    q
}

/// Ceiling division never returns a negative result on non-negative input.
pub proof fn lemma_div_up_nonneg(a: int, b: int)
    requires
        0 <= a,
        1 <= b,
    ensures
        div_up(a, b) >= 0,
{
    vstd::arithmetic::div_mod::lemma_div_pos_is_pos(a + b - 1, b);
}

/// Ceiling division of zero is zero.
pub proof fn lemma_div_up_zero(b: int)
    requires
        1 <= b,
    ensures
        div_up(0, b) == 0,
{
    vstd::arithmetic::div_mod::lemma_basic_div(b - 1, b);
}

/// Ceiling division of a positive value is positive.
pub proof fn lemma_div_up_pos(a: int, b: int)
    requires
        1 <= a,
        1 <= b,
    ensures
        div_up(a, b) >= 1,
{
    assert(a + b - 1 >= b);
    vstd::arithmetic::div_mod::lemma_div_is_ordered(b, a + b - 1, b);
    assert(b / b == 1) by {
        vstd::arithmetic::div_mod::lemma_div_by_self(b);
    }
}

/// Ceiling division respects an upper bound that is a multiple of the divisor.
pub proof fn lemma_div_up_at_most(a: int, b: int, c: int)
    requires
        0 <= a,
        1 <= b,
        0 <= c,
        a <= c * b,
    ensures
        div_up(a, b) <= c,
{
    assert(a + b - 1 <= c * b + b - 1);
    vstd::arithmetic::div_mod::lemma_div_is_ordered(a + b - 1, c * b + b - 1, b);
    assert((c * b + b - 1) / b == c) by {
        vstd::arithmetic::div_mod::lemma_fundamental_div_mod_converse(c * b + b - 1, b, c, b - 1);
    }
}

/// Ceiling division is bounded above by the numerator when the divisor is at
/// least one.
pub proof fn lemma_div_up_le(a: int, b: int)
    requires
        0 <= a,
        1 <= b,
    ensures
        div_up(a, b) <= a,
{
    if a == 0 {
        lemma_div_up_zero(b);
    } else {
        assert(a <= a * b) by (nonlinear_arith)
            requires
                1 <= a,
                1 <= b,
        ;
        lemma_div_up_at_most(a, b, a);
    }
}

/// Truncating division respects a symmetric bound that is a multiple of the
/// divisor.
pub proof fn lemma_div_trunc_abs_at_most(a: int, b: int, c: int)
    requires
        1 <= b,
        0 <= c,
        -(c * b) <= a <= c * b,
    ensures
        -c <= div_trunc(a, b) <= c,
{
    if a >= 0 {
        vstd::arithmetic::div_mod::lemma_div_pos_is_pos(a, b);
        lemma_div_at_most(a, b, c);
    } else {
        vstd::arithmetic::div_mod::lemma_div_pos_is_pos(-a, b);
        lemma_div_at_most(-a, b, c);
    }
}

/// Floor division respects an upper bound that is a multiple of the divisor.
pub proof fn lemma_div_at_most(a: int, b: int, c: int)
    requires
        0 <= a,
        1 <= b,
        0 <= c,
        a <= c * b,
    ensures
        a / b <= c,
{
    vstd::arithmetic::div_mod::lemma_div_is_ordered(a, c * b, b);
    assert(c * b / b == c) by {
        vstd::arithmetic::div_mod::lemma_fundamental_div_mod_converse(c * b, b, c, 0);
    }
}

} // verus!
