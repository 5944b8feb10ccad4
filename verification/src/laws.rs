//! What holds of the arithmetic for all values, proved from the definitions
//! in `model`.

use crate::big::{le_bytes, le_value};
use crate::model::{div_mantissas, floor_sqrt, is_floor_sqrt, mul_mantissas, rescale};
use crate::scale::{lemma_pow10_adds, lemma_pow10_positive, pow10};
use vstd::arithmetic::div_mod::{
    lemma_div_denominator, lemma_div_is_ordered, lemma_div_multiples_vanish,
    lemma_fundamental_div_mod, lemma_mod_pos_bound,
};
use vstd::arithmetic::mul::{lemma_mul_is_associative, lemma_mul_is_commutative};
use vstd::prelude::*;

verus! {

/// The smaller of two precisions.
pub open spec fn lower(a: nat, b: nat) -> nat {
    if a <= b {
        a
    } else {
        b
    }
}

/// Dividing a multiple of `k` by `k` is exact.
proof fn lemma_div_exact(x: nat, k: nat)
    requires
        k > 0,
    ensures
        (x * k) / k == x,
{
    lemma_div_multiples_vanish(x as int, k as int);
    lemma_mul_is_commutative(x as int, k as int);
}

/// A factor common to dividend and divisor cancels.
proof fn lemma_div_cancel(x: nat, k: nat, j: nat)
    requires
        k > 0,
        j > 0,
    ensures
        (x * k) / (k * j) == x / j,
{
    lemma_div_denominator((x * k) as int, k as int, j as int);
    lemma_div_exact(x, k);
}

/// Dividing twice is dividing by the product.
proof fn lemma_div_twice(x: nat, k: nat, j: nat)
    requires
        k > 0,
        j > 0,
    ensures
        (x / k) / j == x / (k * j),
{
    lemma_div_denominator(x as int, k as int, j as int);
}

/// Rounding down to a multiple of `k` loses exactly the remainder.
proof fn lemma_round_trip_loss(x: nat, k: nat)
    requires
        k > 0,
    ensures
        (x / k) * k == x - x % k,
        x % k < k,
{
    lemma_fundamental_div_mod(x as int, k as int);
    lemma_mod_pos_bound(x as int, k as int);
    lemma_mul_is_commutative((x / k) as int, k as int);
}

/// Converting a value to the precision that it has changes nothing.
pub proof fn law_rescale_identity(m: nat, d: nat)
    ensures
        rescale(m, d, d) == m,
{
    lemma_pow10_adds(0, 0);
    assert(m * pow10(0) == m);
}

/// Raising the precision appends zeros; lowering it again by as much gives
/// the value back.
pub proof fn law_rescale_up_then_down(m: nat, from: nat, to: nat)
    requires
        from <= to,
    ensures
        rescale(rescale(m, from, to), to, from) == m,
{
    let k = pow10((to - from) as nat);
    lemma_pow10_positive((to - from) as nat);
    lemma_div_exact(m, k);
    if from == to {
        law_rescale_identity(m, from);
    }
}

/// Converting through an intermediate precision `d2` gives what the direct
/// conversion gives, where the detour drops no digit that the direct
/// conversion keeps: where `d2` is not below both other precisions, or where
/// the digits that only the detour drops are all zero.
pub proof fn law_rescale_composes(m: nat, d1: nat, d2: nat, d3: nat)
    requires
        d2 >= lower(d1, d3) || rescale(m, d1, lower(d1, d3)) % pow10(
            (lower(d1, d3) - d2) as nat,
        ) == 0,
    ensures
        rescale(rescale(m, d1, d2), d2, d3) == rescale(m, d1, d3),
{
    if d2 >= d1 {
        // The detour goes up first, which loses nothing.
        let up = pow10((d2 - d1) as nat);
        lemma_pow10_positive((d2 - d1) as nat);
        if d3 >= d2 {
            // up, then further up: (m * up) * more == m * (up * more)
            let more = pow10((d3 - d2) as nat);
            lemma_pow10_adds((d2 - d1) as nat, (d3 - d2) as nat);
            lemma_mul_is_associative(m as int, up as int, more as int);
        } else if d3 >= d1 {
            // up, then part of the way down: ((m * keep) * drop) / drop == m * keep
            let keep = pow10((d3 - d1) as nat);
            let drop = pow10((d2 - d3) as nat);
            lemma_pow10_positive((d2 - d3) as nat);
            lemma_pow10_adds((d3 - d1) as nat, (d2 - d3) as nat);
            lemma_mul_is_associative(m as int, keep as int, drop as int);
            lemma_div_exact(m * keep, drop);
        } else {
            // up, then down below the start: (m * up) / (up * drop) == m / drop
            let drop = pow10((d1 - d3) as nat);
            lemma_pow10_positive((d1 - d3) as nat);
            lemma_pow10_adds((d2 - d1) as nat, (d1 - d3) as nat);
            lemma_div_cancel(m, up, drop);
        }
    } else {
        // The detour goes down first.
        let down = pow10((d1 - d2) as nat);
        lemma_pow10_positive((d1 - d2) as nat);
        if d3 <= d2 {
            // down, then further down: (m / down) / more == m / (down * more)
            let more = pow10((d2 - d3) as nat);
            lemma_pow10_positive((d2 - d3) as nat);
            lemma_pow10_adds((d1 - d2) as nat, (d2 - d3) as nat);
            lemma_div_twice(m, down, more);
            if d3 == d2 {
                law_rescale_identity(m / down, d2);
            }
        } else if d3 >= d1 {
            // down, then up past the start: the dropped digits of m are zero,
            // so (m / down) * down == m
            law_rescale_identity(m, d1);
            let up = pow10((d3 - d1) as nat);
            lemma_pow10_adds((d1 - d2) as nat, (d3 - d1) as nat);
            lemma_round_trip_loss(m, down);
            lemma_mul_is_associative((m / down) as int, down as int, up as int);
        } else {
            // down, then up to below the start: with q == m / first, the
            // detour gives (q / rest) * rest, and the dropped digits of q
            // are zero
            let first = pow10((d1 - d3) as nat);
            let rest = pow10((d3 - d2) as nat);
            lemma_pow10_positive((d1 - d3) as nat);
            lemma_pow10_positive((d3 - d2) as nat);
            lemma_pow10_adds((d1 - d3) as nat, (d3 - d2) as nat);
            lemma_div_twice(m, first, rest);
            lemma_round_trip_loss(m / first, rest);
        }
    }
}

/// Where the detour through `d2` drops a digit that is not zero and that the
/// direct conversion keeps, the detour gives strictly less: lowering the
/// precision cannot be undone.
pub proof fn law_rescale_detour_loses(m: nat, d1: nat, d2: nat, d3: nat)
    requires
        d2 < lower(d1, d3),
        rescale(m, d1, lower(d1, d3)) % pow10((lower(d1, d3) - d2) as nat) != 0,
    ensures
        rescale(rescale(m, d1, d2), d2, d3) < rescale(m, d1, d3),
{
    let down = pow10((d1 - d2) as nat);
    lemma_pow10_positive((d1 - d2) as nat);
    if d3 >= d1 {
        law_rescale_identity(m, d1);
        let up = pow10((d3 - d1) as nat);
        lemma_pow10_positive((d3 - d1) as nat);
        lemma_pow10_adds((d1 - d2) as nat, (d3 - d1) as nat);
        lemma_round_trip_loss(m, down);
        lemma_mul_is_associative((m / down) as int, down as int, up as int);
        assert((m - m % down) * up < m * up) by (nonlinear_arith)
            requires
                m - m % down < m,
                up > 0,
        ;
    } else {
        let first = pow10((d1 - d3) as nat);
        let rest = pow10((d3 - d2) as nat);
        lemma_pow10_positive((d1 - d3) as nat);
        lemma_pow10_positive((d3 - d2) as nat);
        lemma_pow10_adds((d1 - d3) as nat, (d3 - d2) as nat);
        lemma_div_twice(m, first, rest);
        lemma_round_trip_loss(m / first, rest);
    }
}

/// Multiplication rounds toward zero: the result is the largest mantissa
/// whose value does not exceed the exact product.
pub proof fn law_mul_truncates(a: nat, b: nat, d: nat)
    ensures
        mul_mantissas(a, b, d) * pow10(d) <= a * b,
        a * b < (mul_mantissas(a, b, d) + 1) * pow10(d),
{
    let p = pow10(d);
    lemma_pow10_positive(d);
    lemma_round_trip_loss(a * b, p);
    assert((mul_mantissas(a, b, d) + 1) * p == mul_mantissas(a, b, d) * p + p)
        by (nonlinear_arith);
}

/// Division rounds toward zero: the result is the largest mantissa whose
/// product with the divisor does not exceed the scaled dividend.
pub proof fn law_div_truncates(a: nat, b: nat, d: nat)
    requires
        b > 0,
    ensures
        div_mantissas(a, b, d) * b <= a * pow10(d),
        a * pow10(d) < (div_mantissas(a, b, d) + 1) * b,
{
    lemma_round_trip_loss(a * pow10(d), b);
    assert((div_mantissas(a, b, d) + 1) * b == div_mantissas(a, b, d) * b + b)
        by (nonlinear_arith);
}

/// Dividing a product by one of its factors never gives more than the other
/// factor: rounding down twice cannot overshoot.
pub proof fn law_div_of_mul_never_overshoots(a: nat, b: nat, d: nat)
    requires
        b > 0,
    ensures
        div_mantissas(mul_mantissas(a, b, d), b, d) <= a,
{
    law_mul_truncates(a, b, d);
    let r = mul_mantissas(a, b, d);
    lemma_div_is_ordered((r * pow10(d)) as int, (a * b) as int, b as int);
    lemma_div_exact(a, b);
}

/// One, whose mantissa is the scale itself, is neutral: multiplying by it on
/// either side and dividing by it change nothing.
pub proof fn law_one_is_neutral(x: nat, d: nat)
    ensures
        mul_mantissas(pow10(d), x, d) == x,
        mul_mantissas(x, pow10(d), d) == x,
        div_mantissas(x, pow10(d), d) == x,
{
    lemma_pow10_positive(d);
    lemma_div_exact(x, pow10(d));
    lemma_mul_is_commutative(x as int, pow10(d) as int);
}

/// Every number has a square root rounded down: the largest number whose
/// square does not exceed it.
pub proof fn law_floor_sqrt_exists(n: nat)
    ensures
        is_floor_sqrt(floor_sqrt(n), n),
    decreases n,
{
    if n == 0 {
        assert(is_floor_sqrt(0, 0)) by (nonlinear_arith);
    } else {
        law_floor_sqrt_exists((n - 1) as nat);
        let s = floor_sqrt((n - 1) as nat);
        if (s + 1) * (s + 1) == n {
            assert((s + 1) * (s + 1) < (s + 2) * (s + 2)) by (nonlinear_arith);
            assert(is_floor_sqrt(s + 1, n));
        } else {
            assert(is_floor_sqrt(s, n));
        }
    }
}

/// Reading the shortest little-endian bytes of a number gives the number
/// back.
pub proof fn law_le_bytes_round_trip(n: nat)
    ensures
        le_value(le_bytes(n)) == n,
    decreases n,
{
    if n < 256 {
        let s = le_bytes(n);
        assert(s.subrange(1, 1).len() == 0);
        assert(le_value(s.subrange(1, s.len() as int)) == 0);
    } else {
        let s = le_bytes(n);
        let rest = le_bytes(n / 256);
        assert(s.subrange(1, s.len() as int) =~= rest);
        law_le_bytes_round_trip(n / 256);
        lemma_fundamental_div_mod(n as int, 256);
    }
}

} // verus!
