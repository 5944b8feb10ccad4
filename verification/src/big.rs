//! The arbitrary-precision natural numbers that every mantissa is made of.
//!
//! `num_bigint::BigUint` is opaque to the verifier. This module names the
//! bytes that such a value is made of, defines the natural number that it
//! holds from them, and states, operation by operation, what `num-bigint`
//! computes. These statements are assumed, not proved: everything else in
//! the crate is proved from them.

use num_bigint::BigUint;
use vstd::prelude::*;

verus! {

/// `num_bigint::BigUint`, an unsigned integer of unbounded size.
#[verifier::external_type_specification]
#[verifier::external_body]
pub struct ExBigUint(BigUint);

/// The bytes of a `BigUint`, least significant first, as
/// `BigUint::to_bytes_le` gives them.
pub uninterp spec fn big_bytes(b: BigUint) -> Seq<u8>;

/// The number that a little-endian base-256 numeral stands for; the empty
/// numeral stands for zero, and high zero bytes change nothing.
pub open spec fn le_value(bytes: Seq<u8>) -> nat
    decreases bytes.len(),
{
    if bytes.len() == 0 {
        0
    } else {
        bytes[0] as nat + 256 * le_value(bytes.subrange(1, bytes.len() as int))
    }
}

/// The shortest little-endian base-256 numeral of `n`, and the single byte
/// `0` for zero.
pub open spec fn le_bytes(n: nat) -> Seq<u8>
    decreases n,
{
    if n < 256 {
        seq![n as u8]
    } else {
        seq![(n % 256) as u8] + le_bytes(n / 256)
    }
}

/// The natural number that a `BigUint` holds.
pub open spec fn big_nat(b: BigUint) -> nat {
    le_value(big_bytes(b))
}

/// The character of one decimal digit.
pub open spec fn digit_char(d: nat) -> char
    recommends
        d < 10,
{
    (48 + d) as char
}

/// The decimal numeral of `n`: most significant digit first, no leading
/// zeros, and `"0"` for zero.
pub open spec fn decimal_digits(n: nat) -> Seq<char>
    decreases n,
{
    if n < 10 {
        seq![digit_char(n)]
    } else {
        decimal_digits(n / 10).push(digit_char(n % 10))
    }
}

/// `BigUint::from(u64)`: the same number.
#[verifier::external_body]
pub(crate) fn big_from_u64(n: u64) -> (r: BigUint)
    ensures
        big_nat(r) == n,
{
    BigUint::from(n)
}

/// `BigUint::from(u128)`: the same number.
#[verifier::external_body]
pub(crate) fn big_from_u128(n: u128) -> (r: BigUint)
    ensures
        big_nat(r) == n,
{
    BigUint::from(n)
}

/// `BigUint::clone`: a copy that holds the same number.
#[verifier::external_body]
pub(crate) fn big_clone(a: &BigUint) -> (r: BigUint)
    ensures
        big_nat(r) == big_nat(*a),
{
    a.clone()
}

/// `&BigUint + &BigUint`: the sum. The magnitude is unbounded, so nothing
/// overflows.
#[verifier::external_body]
pub(crate) fn big_add(a: &BigUint, b: &BigUint) -> (r: BigUint)
    ensures
        big_nat(r) == big_nat(*a) + big_nat(*b),
{
    a + b
}

/// `&BigUint - &BigUint`: the difference. `num-bigint` panics where the
/// subtrahend is the larger number, so that case is excluded.
#[verifier::external_body]
pub(crate) fn big_sub(a: &BigUint, b: &BigUint) -> (r: BigUint)
    requires
        big_nat(*b) <= big_nat(*a),
    ensures
        big_nat(r) == big_nat(*a) - big_nat(*b),
{
    a - b
}

/// `&BigUint * &BigUint`: the product.
#[verifier::external_body]
pub(crate) fn big_mul(a: &BigUint, b: &BigUint) -> (r: BigUint)
    ensures
        big_nat(r) == big_nat(*a) * big_nat(*b),
{
    a * b
}

/// `&BigUint / &BigUint`: the quotient, rounded down. `num-bigint` panics on
/// a zero divisor, so that case is excluded.
#[verifier::external_body]
pub(crate) fn big_div(a: &BigUint, b: &BigUint) -> (r: BigUint)
    requires
        big_nat(*b) > 0,
    ensures
        big_nat(r) == big_nat(*a) / big_nat(*b),
{
    a / b
}

/// `&BigUint % &BigUint`: the remainder of the division above, with the same
/// exclusion.
#[verifier::external_body]
pub(crate) fn big_rem(a: &BigUint, b: &BigUint) -> (r: BigUint)
    requires
        big_nat(*b) > 0,
    ensures
        big_nat(r) == big_nat(*a) % big_nat(*b),
{
    a % b
}

/// `BigUint::sqrt`: the truncated principal square root, that is the largest
/// number whose square does not exceed the argument.
#[verifier::external_body]
pub(crate) fn big_sqrt(a: &BigUint) -> (r: BigUint)
    ensures
        big_nat(r) * big_nat(r) <= big_nat(*a),
        big_nat(*a) < (big_nat(r) + 1) * (big_nat(r) + 1),
{
    a.sqrt()
}

/// `BigUint == BigUint`: whether the two hold the same number.
#[verifier::external_body]
pub(crate) fn big_eq(a: &BigUint, b: &BigUint) -> (r: bool)
    ensures
        r == (big_nat(*a) == big_nat(*b)),
{
    a == b
}

/// `BigUint < BigUint`: whether the first number is the smaller one.
#[verifier::external_body]
pub(crate) fn big_lt(a: &BigUint, b: &BigUint) -> (r: bool)
    ensures
        r == (big_nat(*a) < big_nat(*b)),
{
    a < b
}

/// Whether the number is zero.
pub(crate) fn big_is_zero(a: &BigUint) -> (r: bool)
    ensures
        r == (big_nat(*a) == 0),
{
    big_eq(a, &big_from_u64(0))
}

/// `BigUint::to_bytes_le`: the bytes of the number, which are the shortest
/// little-endian numeral of it; zero gives the single byte `0`.
#[verifier::external_body]
pub(crate) fn big_to_bytes_le(a: &BigUint) -> (r: Vec<u8>)
    ensures
        r@ == big_bytes(*a),
        r@ == le_bytes(big_nat(*a)),
{
    a.to_bytes_le()
}

/// `BigUint::from_bytes_le`: the number that the bytes stand for, read least
/// significant byte first. Any byte string is accepted.
#[verifier::external_body]
pub(crate) fn big_from_bytes_le(bytes: &[u8]) -> (r: BigUint)
    ensures
        big_nat(r) == le_value(bytes@),
{
    BigUint::from_bytes_le(bytes)
}

/// `BigUint`'s `Display`, through `to_string`: the decimal numeral, with no
/// sign, padding or separators.
#[verifier::external_body]
pub(crate) fn big_to_string(a: &BigUint) -> (r: String)
    ensures
        r@ == decimal_digits(big_nat(*a)),
{
    a.to_string()
}

} // verus!
