//! The scale of a fixed-point value: ten raised to its number of decimal
//! places.

use crate::big::{big_from_u128, big_nat};
use crate::error::DecimalError;
use num_bigint::BigUint;
use vstd::arithmetic::power::{lemma_pow0, lemma_pow_adds, lemma_pow_increases, lemma_pow_positive, pow};
use vstd::prelude::*;

verus! {

/// The largest supported number of decimal places.
pub const MAX_DECIMALS: u8 = 31;

/// Ten to the power `d`.
pub open spec fn pow10(d: nat) -> nat {
    pow(10, d) as nat
}

/// A scale is never zero.
pub proof fn lemma_pow10_positive(d: nat)
    ensures
        pow10(d) > 0,
{
    lemma_pow_positive(10, d);
}

/// Scales multiply as their exponents add; the scale of no decimal places
/// is one.
pub proof fn lemma_pow10_adds(a: nat, b: nat)
    ensures
        pow10(a + b) == pow10(a) * pow10(b),
        pow10(0) == 1,
{
    lemma_pow_adds(10, a, b);
    lemma_pow_positive(10, a);
    lemma_pow_positive(10, b);
    lemma_pow_positive(10, a + b);
    lemma_pow0(10);
}

/// One more decimal place makes the scale ten times as large.
pub proof fn lemma_pow10_step(d: nat)
    ensures
        pow10(d + 1) == 10 * pow10(d),
{
    lemma_pow10_adds(1, d);
    assert(pow10(1) == 10) by {
        reveal_with_fuel(pow, 2);
    }
}

/// Every supported scale fits in 128 bits.
pub proof fn lemma_pow10_bound(d: nat)
    requires
        d <= MAX_DECIMALS,
    ensures
        pow10(d) <= 10_000_000_000_000_000_000_000_000_000_000,
{
    lemma_pow_increases(10, d, 31);
    lemma_pow_positive(10, d);
    assert(pow(10, 31) == 10_000_000_000_000_000_000_000_000_000_000int) by {
        reveal_with_fuel(pow, 32);
    }
}

/// Ten to the power `d` as a machine integer.
fn pow10_u128(d: u8) -> (r: u128)
    requires
        d <= MAX_DECIMALS,
    ensures
        r == pow10(d as nat),
{
    let mut acc: u128 = 1;
    let mut i: u8 = 0;
    proof {
        lemma_pow10_adds(0, 0);
    }
    while i < d
        invariant
            i <= d <= MAX_DECIMALS,
            acc == pow10(i as nat),
        decreases d - i,
    {
        proof {
            lemma_pow10_step(i as nat);
            lemma_pow10_bound((i + 1) as nat);
        }
        acc = acc * 10;
        i = i + 1;
    }
    acc
}

/// The scale of `d` decimal places, for `d` from 0 to 31.
pub fn base(d: u8) -> (r: BigUint)
    requires
        d <= MAX_DECIMALS,
    ensures
        big_nat(r) == pow10(d as nat),
{
    big_from_u128(pow10_u128(d))
}

/// The scale of `d` decimal places, or `UnsupportedPrecision` where `d` is
/// more than 31.
pub fn try_base(d: u8) -> (r: Result<BigUint, DecimalError>)
    ensures
        r is Ok <==> d <= MAX_DECIMALS,
        r matches Ok(b) ==> big_nat(b) == pow10(d as nat),
        r matches Err(e) ==> e == DecimalError::UnsupportedPrecision,
{
    if d <= MAX_DECIMALS {
        Ok(base(d))
    } else {
        Err(DecimalError::UnsupportedPrecision)
    }
}

} // verus!
